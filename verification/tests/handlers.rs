use ryob::controllers::index;
use ryob::controllers::register::{
    register_get, register_post, registration_form_error_handler,
    registration_form_invalid_handler, registration_form_ok_handler, RegistrationForm,
    RegistrationFormValidationError,
};
use ryob::controllers::reply::{PageData, Reply};
use ryob::controllers::users::login;
use ryob::controllers::users::login::LoginForm;
use ryob::controllers::users::register;
use ryob::controllers::users::register::RegisterForm;
use ryob::database::error::DatabaseError;
use ryob::database::store::Database;
use ryob::models::session::Session;
use ryob::models::user::{NewUser, User, UserError};
use ryob::utils::errors::{
    BAD_REQUEST, CONFLICT, FOUND, INTERNAL_SERVER_ERROR, NOT_FOUND, OK, UNAUTHORIZED,
};
use ryob::utils::id::Id;

fn registration(name: &str, password: &str, confirm: &str) -> RegistrationForm {
    RegistrationForm {
        user_name: name.to_string(),
        password: password.to_string(),
        password_confirm: confirm.to_string(),
    }
}

fn register_form(name: &str, password: &str, confirm: &str) -> RegisterForm {
    RegisterForm {
        user_name: name.to_string(),
        password: password.to_string(),
        confirm_password: confirm.to_string(),
    }
}

fn login_form(name: &str, password: &str) -> LoginForm {
    LoginForm { user_name: name.to_string(), password: password.to_string() }
}

fn is_redirect_home(reply: &Reply) -> bool {
    matches!(reply, Reply::Redirect { location } if location == "/")
}

fn session_user(session: &Session) -> Option<i64> {
    match session {
        Session::Authenticated(id) => Some(id.value()),
        _ => None,
    }
}

#[test]
fn status_codes() {
    assert_eq!(
        (OK, FOUND, BAD_REQUEST, UNAUTHORIZED, NOT_FOUND, CONFLICT, INTERNAL_SERVER_ERROR),
        (200, 302, 400, 401, 404, 409, 500)
    );
}

#[test]
fn register_post_of_a_name_of_one_character_creates_no_row() {
    let mut db = Database::new();
    let mut session = Session::new();
    let reply = register_post(&mut db, &registration("a", "correcthorse", "correcthorse"), &mut session);
    match &reply {
        Reply::Page {
            status,
            content_type,
            template,
            data: PageData::Registration { error, previous },
        } => {
            assert_eq!(*status, 400);
            assert_eq!(content_type.as_deref(), Some("text/html; charset=utf-8"));
            assert_eq!(template, "register");
            assert_eq!(error, "Name must be between 2 and 64 alpha-numeric characters or spaces");
            assert_eq!(previous.user_name, "a");
        }
        other => panic!("unexpected: {:?}", other),
    }
    assert_eq!(reply.status(), 400);
    assert!(db.users().is_empty());
    assert!(matches!(session, Session::Anonymous));
}

#[test]
fn users_register_post_of_a_name_of_one_character_creates_no_row() {
    let mut db = Database::new();
    let mut session = Session::new();
    let form = register_form("a", "correcthorse", "correcthorse");
    let reply = register::post(&mut db, &mut session, &form).unwrap();
    match &reply {
        Reply::Page { status, content_type, template, data: PageData::Register { errors, previous } } => {
            assert_eq!(*status, 400);
            assert!(content_type.is_none());
            assert_eq!(template, "pages/register");
            assert_eq!(errors, &vec!["Username must be between 2 and 128 characters long"]);
            assert_eq!(previous.user_name, "a");
        }
        other => panic!("unexpected: {:?}", other),
    }
    assert!(db.users().is_empty());
    assert!(matches!(session, Session::Anonymous));
}

#[test]
fn register_post_stores_the_trimmed_name_and_logs_in() {
    let mut db = Database::new();
    let mut session = Session::new();
    let form = registration("  Ada \n", "correcthorse", "correcthorse");
    let reply = register_post(&mut db, &form, &mut session);
    assert!(is_redirect_home(&reply), "{:?}", reply);
    assert_eq!(reply.status(), 302);
    assert_eq!(db.users().len(), 1);
    assert_eq!(db.users()[0].user_name, "Ada");
    assert_eq!(session_user(&session), Some(db.users()[0].id.value()));
    assert!(User::login(&db, &"Ada".to_string(), &"correcthorse".to_string()).is_ok());

    // The same name again, whatever stands around it, is a conflict, and the
    // form is shown again.
    let mut other = Session::new();
    let reply = register_post(&mut db, &registration("Ada  ", "batterystaple", "batterystaple"), &mut other);
    match &reply {
        Reply::Page {
            status,
            content_type,
            template,
            data: PageData::Registration { error, previous },
        } => {
            assert_eq!(*status, 409);
            assert_eq!(content_type.as_deref(), Some("text/html; charset=utf-8"));
            assert_eq!(template, "register");
            assert_eq!(error, "Name already in use");
            assert_eq!(previous.user_name, "Ada");
        }
        other => panic!("unexpected: {:?}", other),
    }
    assert_eq!(reply.status(), 409);
    assert_eq!(db.users().len(), 1);
    assert_eq!(db.users()[0].user_name, "Ada");
    assert!(User::login(&db, &"Ada".to_string(), &"correcthorse".to_string()).is_ok());
    assert!(matches!(other, Session::Anonymous));
}

#[test]
fn register_post_reports_each_rule() {
    let mut db = Database::new();
    let mut session = Session::new();
    let name = "Name must be between 2 and 64 alpha-numeric characters or spaces";
    let password =
        "Password must be between 8 and 256 alpha-numeric characters or punctuation symbols";
    let cases = [
        (registration(&"a".repeat(65), "correcthorse", "correcthorse"), name),
        (registration("Ada!", "correcthorse", "correcthorse"), name),
        (registration("Ada", "short", "short"), password),
        (registration("Ada", &"p".repeat(257), &"p".repeat(257)), password),
        (registration("Ada", "correct horse", "correct horse"), password),
        (registration("Ada", "correcthorse", "correcthorsE"), "Passwords do not match"),
    ];
    for (form, message) in cases {
        match register_post(&mut db, &form, &mut session) {
            Reply::Page { status: 400, data: PageData::Registration { error, previous }, .. } => {
                assert_eq!(error, message);
                assert_eq!(previous.user_name, form.user_name);
            }
            other => panic!("unexpected: {:?}", other),
        }
    }
    assert!(db.users().is_empty());
}

#[test]
fn invalid_handler_messages() {
    let form = registration("Ada", "pw", "pw");
    let message = |error| match registration_form_invalid_handler(&form, error) {
        Reply::Page { status: 400, data: PageData::Registration { error, previous }, .. } => {
            assert_eq!(previous.user_name, "Ada");
            error
        }
        other => panic!("unexpected: {:?}", other),
    };
    let name = "Name must be between 2 and 64 alpha-numeric characters or spaces";
    let password =
        "Password must be between 8 and 256 alpha-numeric characters or punctuation symbols";
    assert_eq!(message(RegistrationFormValidationError::NameTooShort), name);
    assert_eq!(message(RegistrationFormValidationError::NameTooLong), name);
    assert_eq!(message(RegistrationFormValidationError::NameInvalidCharacters), name);
    assert_eq!(message(RegistrationFormValidationError::PasswordTooShort), password);
    assert_eq!(message(RegistrationFormValidationError::PasswordTooLong), password);
    assert_eq!(message(RegistrationFormValidationError::PasswordInvalidCharacters), password);
    assert_eq!(
        message(RegistrationFormValidationError::PasswordInsecure),
        "Password is not secure enough"
    );
    assert_eq!(
        message(RegistrationFormValidationError::PasswordMismatch),
        "Passwords do not match"
    );
}

#[test]
fn ok_and_error_handlers() {
    let user = User { id: Id::new(4), user_name: "Ada".to_string(), password_hash: "h".to_string() };
    let mut session = Session::new();
    let reply = registration_form_ok_handler(&user, &mut session);
    assert!(is_redirect_home(&reply));
    assert_eq!(session_user(&session), Some(4));

    let form = registration("Ada", "correcthorse", "correcthorse");
    let page = |error| match registration_form_error_handler(&form, error) {
        Reply::Page {
            status,
            content_type,
            template,
            data: PageData::Registration { error, previous },
        } => {
            assert_eq!(content_type.as_deref(), Some("text/html; charset=utf-8"));
            assert_eq!(template, "register");
            assert_eq!(previous.user_name, "Ada");
            (status, error)
        }
        other => panic!("unexpected: {:?}", other),
    };
    assert_eq!(page(UserError::NameAlreadyInUse), (409, "Name already in use".to_string()));
    assert_eq!(page(UserError::BadLogin), (401, "Bad login".to_string()));
    assert_eq!(page(UserError::NoSuchUser), (404, "No such user".to_string()));
    let status = |error| match registration_form_error_handler(&form, error) {
        Reply::Status { status } => status,
        other => panic!("unexpected: {:?}", other),
    };
    assert_eq!(status(UserError::UnknownHashError("h".to_string())), 500);
    assert_eq!(status(UserError::UnknownDatabaseError(DatabaseError::NotFound)), 500);
    assert_eq!(status(UserError::UnknownActixError("a".to_string())), 500);
    assert_eq!(status(UserError::Unknown("u".to_string())), 500);
}

#[test]
fn empty_forms() {
    match register_get() {
        Reply::Page { status: 200, content_type: None, template, data: PageData::Empty } => {
            assert_eq!(template, "register")
        }
        other => panic!("unexpected: {:?}", other),
    }
    match register::get().unwrap() {
        Reply::Page { status: 200, content_type: None, template, data: PageData::Empty } => {
            assert_eq!(template, "pages/register")
        }
        other => panic!("unexpected: {:?}", other),
    }
    match login::get().unwrap() {
        Reply::Page { status: 200, content_type: None, template, data: PageData::Empty } => {
            assert_eq!(template, "pages/login")
        }
        other => panic!("unexpected: {:?}", other),
    }
}

#[test]
fn users_register_post_then_login_post() {
    let mut db = Database::new();
    let mut session = Session::new();
    let form = register_form(" Ada ", "correct horse", "correct horse");
    let reply = register::post(&mut db, &mut session, &form).unwrap();
    assert!(is_redirect_home(&reply), "{:?}", reply);
    assert_eq!(db.users().len(), 1);
    assert_eq!(db.users()[0].user_name, "Ada");
    let id = db.users()[0].id.value();
    assert_eq!(session_user(&session), Some(id));

    let mut session = Session::new();
    let reply = login::post(&db, &mut session, &login_form("Ada", "correct horse")).unwrap();
    assert!(is_redirect_home(&reply), "{:?}", reply);
    assert_eq!(session_user(&session), Some(id));
}

#[test]
fn users_register_post_of_a_taken_name_is_a_conflict() {
    let mut db = Database::new();
    let mut session = Session::new();
    register::post(&mut db, &mut session, &register_form("Ada", "correcthorse", "correcthorse"))
        .unwrap();
    let mut other = Session::new();
    let reply = register::post(
        &mut db,
        &mut other,
        &register_form("\tAda", "batterystaple", "batterystaple"),
    )
    .unwrap();
    match reply {
        Reply::Page { status, content_type: None, template, data: PageData::Register { errors, previous } } => {
            assert_eq!(status, 409);
            assert_eq!(template, "pages/register");
            assert_eq!(errors, vec!["Username is already in use"]);
            assert_eq!(previous.user_name, "Ada");
        }
        other => panic!("unexpected: {:?}", other),
    }
    assert_eq!(db.users().len(), 1);
    assert!(matches!(other, Session::Anonymous));
}

#[test]
fn users_register_post_reports_every_rule() {
    let mut db = Database::new();
    let mut session = Session::new();
    let form = register_form(" ? ", "pw!", "pw");
    match register::post(&mut db, &mut session, &form).unwrap() {
        Reply::Page { status: 400, data: PageData::Register { errors, previous }, .. } => {
            assert_eq!(
                errors,
                vec![
                    "Username must be between 2 and 128 characters long",
                    "Username must consist of alphanumeric characters and spaces",
                    "Passwords did not match",
                    "Password must be 8 or more characters long",
                    "Password must consist of alphanumeric characters and spaces",
                ]
            );
            assert_eq!(previous.user_name, "?");
        }
        other => panic!("unexpected: {:?}", other),
    }
    let long = "p".repeat(257);
    match register::post(&mut db, &mut session, &register_form("Ada", &long, &long)).unwrap() {
        Reply::Page { status: 400, data: PageData::Register { errors, .. }, .. } => {
            assert_eq!(errors, vec!["Password must be 256 or fewer characters long"]);
        }
        other => panic!("unexpected: {:?}", other),
    }
    assert!(db.users().is_empty());
}

#[test]
fn register_answer_on_each_outcome() {
    let form = register_form("Ada", "pw", "pw");
    let user = User { id: Id::new(3), user_name: "Ada".to_string(), password_hash: "h".to_string() };
    let mut session = Session::new();
    let reply = register::answer(Ok(user), &mut session, &form).unwrap();
    assert!(is_redirect_home(&reply));
    assert_eq!(session_user(&session), Some(3));

    let mut session = Session::Authenticated(Id::new(1));
    let reply = register::answer(Err(UserError::NameAlreadyInUse), &mut session, &form).unwrap();
    assert_eq!(reply.status(), 409);
    assert_eq!(session_user(&session), Some(1));

    let failure = register::answer(Err(UserError::BadLogin), &mut session, &form).unwrap_err();
    assert_eq!((failure.0, failure.1.as_str()), (401, "Bad login"));
    let failure = register::answer(Err(UserError::NoSuchUser), &mut session, &form).unwrap_err();
    assert_eq!((failure.0, failure.1.as_str()), (404, "No such user"));
    let failure =
        register::answer(Err(UserError::UnknownHashError("salt".to_string())), &mut session, &form)
            .unwrap_err();
    assert_eq!((failure.0, failure.1.as_str()), (500, "salt"));
    assert_eq!(session_user(&session), Some(1));
}

#[test]
fn login_post_with_a_wrong_password_or_name() {
    let mut db = Database::new();
    User::register(&mut db, &"Ada".to_string(), &"correcthorse".to_string()).unwrap();
    for (name, password, shown) in
        [("Ada", "wrong", "Ada"), ("Grace", "correcthorse", "Grace"), (" Grace\n", "x", "Grace")]
    {
        let mut session = Session::new();
        match login::post(&db, &mut session, &login_form(name, password)).unwrap() {
            Reply::Page { status, content_type: None, template, data: PageData::Login { errors, previous } } => {
                assert_eq!(status, 401);
                assert_eq!(template, "pages/login");
                assert_eq!(errors, vec!["Incorrect username or password"]);
                assert_eq!(previous.user_name, shown);
            }
            other => panic!("unexpected: {:?}", other),
        }
        assert!(matches!(session, Session::Anonymous));
    }
}

#[test]
fn login_post_takes_the_name_as_entered() {
    let mut db = Database::new();
    User::register(&mut db, &"Ada".to_string(), &"correcthorse".to_string()).unwrap();
    let mut session = Session::new();
    let reply = login::post(&db, &mut session, &login_form(" Ada ", "correcthorse")).unwrap();
    assert_eq!(reply.status(), 401);
    assert!(matches!(session, Session::Anonymous));
}

#[test]
fn login_post_against_a_broken_hash_is_a_server_error() {
    let mut db = Database::new();
    User::store(
        &mut db,
        NewUser { user_name: "Ada".to_string(), password_hash: "plain".to_string() },
    )
    .unwrap();
    let mut session = Session::new();
    let failure = login::post(&db, &mut session, &login_form("Ada", "plain")).unwrap_err();
    assert_eq!(failure.0, 500);
    assert!(matches!(session, Session::Anonymous));
}

#[test]
fn login_answer_on_each_outcome() {
    let form = login_form("Ada", "pw");
    let user = User { id: Id::new(3), user_name: "Ada".to_string(), password_hash: "h".to_string() };
    let mut session = Session::Authenticated(Id::new(1));
    let reply = login::answer(Ok(user), &mut session, &form).unwrap();
    assert!(is_redirect_home(&reply));
    assert_eq!(session_user(&session), Some(3));

    let reply = login::answer(Err(UserError::BadLogin), &mut session, &form).unwrap();
    assert_eq!(reply.status(), 401);
    match reply {
        Reply::Page { template, data: PageData::Login { errors, previous }, .. } => {
            assert_eq!(template, "pages/login");
            assert_eq!(errors, vec!["Incorrect username or password"]);
            assert_eq!(previous.user_name, "Ada");
        }
        other => panic!("unexpected: {:?}", other),
    }
    assert_eq!(session_user(&session), Some(3));
    let failure = login::answer(Err(UserError::NoSuchUser), &mut session, &form).unwrap_err();
    assert_eq!((failure.0, failure.1.as_str()), (404, "No such user"));
    let failure = login::answer(Err(UserError::NameAlreadyInUse), &mut session, &form).unwrap_err();
    assert_eq!(failure.0, 409);
    let failure = login::answer(
        Err(UserError::UnknownDatabaseError(DatabaseError::Unknown("down".to_string()))),
        &mut session,
        &form,
    )
    .unwrap_err();
    assert_eq!((failure.0, failure.1.as_str()), (500, "down"));
}

#[test]
fn home_page_shows_the_current_user() {
    let mut db = Database::new();
    let ada = User::store(
        &mut db,
        NewUser { user_name: "Ada".to_string(), password_hash: "h".to_string() },
    )
    .unwrap();
    match index::get(&db, &Session::new()).unwrap() {
        Reply::Page { status: 200, content_type: None, template, data: PageData::Home { user } } => {
            assert_eq!(template, "pages/index");
            assert!(user.is_none());
        }
        other => panic!("unexpected: {:?}", other),
    }
    match index::get(&db, &Session::Authenticated(ada.id)).unwrap() {
        Reply::Page { status: 200, template, data: PageData::Home { user: Some(user) }, .. } => {
            assert_eq!(template, "pages/index");
            assert_eq!(user.id, ada.id);
            assert_eq!(user.user_name, "Ada");
        }
        other => panic!("unexpected: {:?}", other),
    }
    let failure = index::get(&db, &Session::Authenticated(Id::new(2))).unwrap_err();
    assert_eq!((failure.0, failure.1.as_str()), (404, "No such user"));
    let failure = index::get(&db, &Session::Unreadable("garbled".to_string())).unwrap_err();
    assert_eq!((failure.0, failure.1.as_str()), (500, "garbled"));
}
