//! Registration at `/users/register`.
//!
//! The rules of this form: a name of 2 to 128 characters, each a letter, a
//! number or a space; a password of 8 to 256 characters, each a letter, a
//! number or a space; and a confirmation that repeats the password. Every
//! rule that a form breaks is reported, not the first alone. The form at
//! `/register` has rules of its own.

use crate::controllers::reply::{texts_view, PageData, PageDataView, Reply, ReplyView};
use crate::database::store::Database;
use crate::models::session::{Session, SessionView};
use crate::models::user::{User, UserError, UserErrorView, HASH_COST};
use crate::utils::errors::{RyobError, BAD_REQUEST, CONFLICT, INTERNAL_SERVER_ERROR, OK};
use crate::utils::hashing::{bcrypt_verify, hash_shaped};
use crate::utils::text::{alphanumeric, trimmed};
use vstd::prelude::*;
use vstd::string::*;

verus! {

/// What a visitor submits to register.
#[derive(Debug)]
pub struct RegisterForm {
    pub user_name: String,
    pub password: String,
    pub confirm_password: String,
}

/// What is shown again of a form that was refused: the name, not the
/// password.
#[derive(Debug)]
pub struct PreviousRegisterForm {
    pub user_name: String,
}

impl View for PreviousRegisterForm {
    type V = Seq<char>;

    open spec fn view(&self) -> Seq<char> {
        self.user_name@
    }
}

/// A rule that a form breaks.
#[derive(Clone, Copy, Debug, PartialEq, Eq)]
pub enum RegisterFormValidationError {
    UserNameTooShort,
    UserNameTooLong,
    UserNameInvalidCharacters,
    PasswordTooShort,
    PasswordTooLong,
    PasswordInsecure,
    PasswordNotConfirmed,
    PasswordInvalidCharacters,
}

/// The least number of characters of a password.
pub const MIN_PASSWORD_SIZE: usize = 8;

/// The greatest number of characters of a password.
pub const MAX_PASSWORD_SIZE: usize = 256;

/// The least number of characters of a name.
pub const MIN_USER_NAME_SIZE: usize = 2;

/// The greatest number of characters of a name.
pub const MAX_USER_NAME_SIZE: usize = 128;

/// Whether a name may hold the character: a letter, a number or a space.
pub open spec fn valid_user_name_char(c: char) -> bool {
    alphanumeric(c) || c == ' '
}

/// Whether a password may hold the character: a letter, a number or a space.
pub open spec fn valid_password_char(c: char) -> bool {
    alphanumeric(c) || c == ' '
}

/// Whether a name may hold every character of the text.
pub open spec fn valid_user_name_chars(text: Seq<char>) -> bool {
    forall|i: int| 0 <= i < text.len() ==> valid_user_name_char(#[trigger] text[i])
}

/// Whether a password may hold every character of the text.
pub open spec fn valid_password_chars(text: Seq<char>) -> bool {
    forall|i: int| 0 <= i < text.len() ==> valid_password_char(#[trigger] text[i])
}

/// The rules that a name breaks: its length, then its characters.
pub open spec fn user_name_errors(name: Seq<char>) -> Seq<RegisterFormValidationError> {
    (if name.len() < MIN_USER_NAME_SIZE {
        seq![RegisterFormValidationError::UserNameTooShort]
    } else if name.len() > MAX_USER_NAME_SIZE {
        seq![RegisterFormValidationError::UserNameTooLong]
    } else {
        seq![]
    }) + (if !valid_user_name_chars(name) {
        seq![RegisterFormValidationError::UserNameInvalidCharacters]
    } else {
        seq![]
    })
}

/// The rules that a password breaks: its confirmation, then its length, then
/// its characters.
pub open spec fn password_errors(password: Seq<char>, confirm_password: Seq<char>) -> Seq<
    RegisterFormValidationError,
> {
    (if password != confirm_password {
        seq![RegisterFormValidationError::PasswordNotConfirmed]
    } else {
        seq![]
    }) + (if password.len() < MIN_PASSWORD_SIZE {
        seq![RegisterFormValidationError::PasswordTooShort]
    } else if password.len() > MAX_PASSWORD_SIZE {
        seq![RegisterFormValidationError::PasswordTooLong]
    } else {
        seq![]
    }) + (if !valid_password_chars(password) {
        seq![RegisterFormValidationError::PasswordInvalidCharacters]
    } else {
        seq![]
    })
}

/// The rules that a form breaks: those of the name, then those of the
/// password.
pub open spec fn register_form_errors(
    user_name: Seq<char>,
    password: Seq<char>,
    confirm_password: Seq<char>,
) -> Seq<RegisterFormValidationError> {
    user_name_errors(user_name) + password_errors(password, confirm_password)
}

/// What the visitor is told about a rule that the form breaks.
pub open spec fn validation_message(error: RegisterFormValidationError) -> Seq<char> {
    match error {
        RegisterFormValidationError::UserNameTooShort
        | RegisterFormValidationError::UserNameTooLong =>
            "Username must be between 2 and 128 characters long"@,
        RegisterFormValidationError::UserNameInvalidCharacters =>
            "Username must consist of alphanumeric characters and spaces"@,
        RegisterFormValidationError::PasswordInsecure => "Password not secure"@,
        RegisterFormValidationError::PasswordTooShort =>
            "Password must be 8 or more characters long"@,
        RegisterFormValidationError::PasswordTooLong =>
            "Password must be 256 or fewer characters long"@,
        RegisterFormValidationError::PasswordInvalidCharacters =>
            "Password must consist of alphanumeric characters and spaces"@,
        RegisterFormValidationError::PasswordNotConfirmed => "Passwords did not match"@,
    }
}

/// The form with the white space around the name removed.
pub fn sanitize_register_form(form: &RegisterForm) -> (r: RegisterForm)
    ensures
        r.user_name@ == trimmed(form.user_name@),
        r.password@ == form.password@,
        r.confirm_password@ == form.confirm_password@,
{
    RegisterForm {
        user_name: form.user_name.as_str().trim().to_owned(),
        password: form.password.clone(),
        confirm_password: form.confirm_password.clone(),
    }
}

/// What is shown again of the form.
pub fn register_form_to_previous(form: &RegisterForm) -> (r: PreviousRegisterForm)
    ensures
        r@ == form.user_name@,
{
    PreviousRegisterForm { user_name: form.user_name.clone() }
}

/// Whether a name may hold the character.
pub fn is_valid_user_name_char(username_char: char) -> (r: bool)
    ensures
        r == valid_user_name_char(username_char),
{
    username_char.is_alphanumeric() || username_char == ' '
}

/// Whether a name may hold every character of the text.
fn has_valid_user_name_chars(text: &str) -> (r: bool)
    ensures
        r == valid_user_name_chars(text@),
{
    let mut ok = true;
    for c in it: text.chars()
        invariant
            it.seq() == text@,
            ok == (forall|i: int|
                0 <= i < it.index() ==> valid_user_name_char(#[trigger] text@[i])),
    {
        if !is_valid_user_name_char(c) {
            ok = false;
        }
    }
    ok
}

/// The rules that a name breaks.
pub fn validate_user_name(name: &String) -> (errors: Vec<RegisterFormValidationError>)
    ensures
        errors@ == user_name_errors(name@),
{
    let mut errors: Vec<RegisterFormValidationError> = Vec::new();
    let len = name.as_str().unicode_len();
    if len < MIN_USER_NAME_SIZE {
        errors.push(RegisterFormValidationError::UserNameTooShort);
    } else if len > MAX_USER_NAME_SIZE {
        errors.push(RegisterFormValidationError::UserNameTooLong);
    }
    if !has_valid_user_name_chars(name.as_str()) {
        errors.push(RegisterFormValidationError::UserNameInvalidCharacters);
    }
    assert(errors@ =~= user_name_errors(name@));
    errors
}

/// Whether a password may hold the character.
pub fn is_valid_password_char(password_char: char) -> (r: bool)
    ensures
        r == valid_password_char(password_char),
{
    password_char.is_alphanumeric() || password_char == ' '
}

/// Whether a password may hold every character of the text.
fn has_valid_password_chars(text: &str) -> (r: bool)
    ensures
        r == valid_password_chars(text@),
{
    let mut ok = true;
    for c in it: text.chars()
        invariant
            it.seq() == text@,
            ok == (forall|i: int|
                0 <= i < it.index() ==> valid_password_char(#[trigger] text@[i])),
    {
        if !is_valid_password_char(c) {
            ok = false;
        }
    }
    ok
}

/// The rules that a password breaks.
pub fn validate_password(password: &String, confirm_password: &String) -> (errors: Vec<
    RegisterFormValidationError,
>)
    ensures
        errors@ == password_errors(password@, confirm_password@),
{
    let mut errors: Vec<RegisterFormValidationError> = Vec::new();
    if !(*password == *confirm_password) {
        errors.push(RegisterFormValidationError::PasswordNotConfirmed);
    }
    let len = password.as_str().unicode_len();
    if len < MIN_PASSWORD_SIZE {
        errors.push(RegisterFormValidationError::PasswordTooShort);
    } else if len > MAX_PASSWORD_SIZE {
        errors.push(RegisterFormValidationError::PasswordTooLong);
    }
    if !has_valid_password_chars(password.as_str()) {
        errors.push(RegisterFormValidationError::PasswordInvalidCharacters);
    }
    assert(errors@ =~= password_errors(password@, confirm_password@));
    errors
}

/// The rules that a form breaks.
pub fn validate_register_form(form: &RegisterForm) -> (errors: Vec<RegisterFormValidationError>)
    ensures
        errors@ == register_form_errors(form.user_name@, form.password@, form.confirm_password@),
{
    let mut user_name_errors = validate_user_name(&form.user_name);
    let mut password_errors = validate_password(&form.password, &form.confirm_password);
    let mut errors = Vec::new();
    errors.append(&mut user_name_errors);
    errors.append(&mut password_errors);
    errors
}

/// What the visitor is told about a rule that the form breaks.
pub fn validation_error_to_string(error: RegisterFormValidationError) -> (r: String)
    ensures
        r@ == validation_message(error),
{
    match error {
        RegisterFormValidationError::UserNameTooShort => String::from_str(
            "Username must be between 2 and 128 characters long",
        ),
        RegisterFormValidationError::UserNameTooLong => String::from_str(
            "Username must be between 2 and 128 characters long",
        ),
        RegisterFormValidationError::UserNameInvalidCharacters => String::from_str(
            "Username must consist of alphanumeric characters and spaces",
        ),
        RegisterFormValidationError::PasswordInsecure => String::from_str("Password not secure"),
        RegisterFormValidationError::PasswordTooShort => String::from_str(
            "Password must be 8 or more characters long",
        ),
        RegisterFormValidationError::PasswordTooLong => String::from_str(
            "Password must be 256 or fewer characters long",
        ),
        RegisterFormValidationError::PasswordInvalidCharacters => String::from_str(
            "Password must consist of alphanumeric characters and spaces",
        ),
        RegisterFormValidationError::PasswordNotConfirmed => String::from_str(
            "Passwords did not match",
        ),
    }
}

/// The answer to a form that breaks rules: the form again under the status
/// 400, with a message for each rule and the name that was entered.
pub open spec fn invalid_reply(
    user_name: Seq<char>,
    errors: Seq<RegisterFormValidationError>,
) -> ReplyView {
    ReplyView::Page {
        status: BAD_REQUEST,
        content_type: None,
        template: "pages/register"@,
        data: PageDataView::Register {
            errors: errors.map_values(|error: RegisterFormValidationError| validation_message(error)),
            previous: user_name,
        },
    }
}

/// The answer to a name that is taken: the form again under the status 409,
/// with the complaint and the name that was entered.
pub open spec fn name_in_use_reply(user_name: Seq<char>) -> ReplyView {
    ReplyView::Page {
        status: CONFLICT,
        content_type: None,
        template: "pages/register"@,
        data: PageDataView::Register {
            errors: seq!["Username is already in use"@],
            previous: user_name,
        },
    }
}

/// What is answered once the registration has been tried. A new user is
/// logged in and sent to the home page. `NameAlreadyInUse` shows the form
/// again, with the name of the given form, and leaves the session alone. Any
/// other failure is passed on with its status.
pub fn answer(outcome: Result<User, UserError>, session: &mut Session, form: &RegisterForm) -> (r:
    Result<Reply, RyobError>)
    ensures
        match outcome {
            Ok(user) => {
                &&& r matches Ok(reply)
                &&& reply@ == (ReplyView::Redirect { location: "/"@ })
                &&& final(session)@ == SessionView::Authenticated(user.id@)
            },
            Err(error) => {
                &&& final(session)@ == old(session)@
                &&& if error@ == UserErrorView::NameAlreadyInUse {
                    r matches Ok(reply) && reply@ == name_in_use_reply(form.user_name@)
                } else {
                    r matches Err(failure) && failure.0 == error@.status() && failure.1@
                        == error@.message()
                }
            },
        },
{
    match outcome {
        Err(UserError::NameAlreadyInUse) => {
            let previous = register_form_to_previous(form);
            let mut errors: Vec<String> = Vec::new();
            errors.push(String::from_str("Username is already in use"));
            let reply = Reply::Page {
                status: CONFLICT,
                content_type: None,
                template: String::from_str("pages/register"),
                data: PageData::Register { errors, previous },
            };
            assert(reply@->Page_data->Register_errors =~= seq!["Username is already in use"@]);
            Ok(reply)
        },
        Err(error) => Err(RyobError::from(error)),
        Ok(registered_user) => {
            match registered_user.to_session(session) {
                Ok(_) => Ok(Reply::Redirect { location: String::from_str("/") }),
                Err(error) => Err(RyobError::from(error)),
            }
        },
    }
}

/// Takes a submitted form: removes the white space around the name, holds
/// the form to the rules and registers the user.
///
/// A form that breaks rules is shown again with every complaint, and nothing
/// changes. Of a form that passes, the contract says what holds whatever
/// salt the hash gets. Either the visitor is sent to the home page, and then
/// the name was free, the new user is stored under the trimmed name with a
/// hash that the password verifies against, and the session holds the new
/// identifier. Or the form is shown again because the name is taken, which
/// it then is. Or a failure is passed on; it is never 401, 404 or 409. In the
/// last two cases nothing has changed. A name that is taken never leads to
/// the home page.
pub fn post(db: &mut Database, session: &mut Session, form: &RegisterForm) -> (r: Result<
    Reply,
    RyobError,
>)
    requires
        old(db).wf(),
    ensures
        final(db).wf(),
        ({
            let name = trimmed(form.user_name@);
            let errors = register_form_errors(name, form.password@, form.confirm_password@);
            if errors.len() > 0 {
                &&& r matches Ok(reply)
                &&& reply@ == invalid_reply(name, errors)
                &&& final(db)@ == old(db)@
                &&& final(session)@ == old(session)@
            } else {
                ||| {
                    &&& r matches Ok(reply)
                    &&& reply@ == (ReplyView::Redirect { location: "/"@ })
                    &&& !old(db)@.has_user_name(name)
                    &&& final(db)@.users.len() == old(db)@.users.len() + 1
                    &&& final(db)@ == old(db)@.insert_user(
                        name,
                        final(db)@.users.last().password_hash,
                    )
                    &&& final(db)@.users.last().user_name == name
                    &&& hash_shaped(final(db)@.users.last().password_hash, HASH_COST)
                    &&& bcrypt_verify(form.password@, final(db)@.users.last().password_hash)
                        == Some(true)
                    &&& final(session)@ == SessionView::Authenticated(
                        final(db)@.users.last().id,
                    )
                }
                ||| {
                    &&& r matches Ok(reply)
                    &&& reply@ == name_in_use_reply(name)
                    &&& old(db)@.has_user_name(name)
                    &&& final(db)@ == old(db)@
                    &&& final(session)@ == old(session)@
                }
                ||| {
                    &&& r matches Err(failure)
                    &&& failure.0 == INTERNAL_SERVER_ERROR
                    &&& final(db)@ == old(db)@
                    &&& final(session)@ == old(session)@
                }
            }
        }),
{
    let sanitized_form = sanitize_register_form(form);
    let validation_errors = validate_register_form(&sanitized_form);
    if validation_errors.len() > 0 {
        let previous = register_form_to_previous(&sanitized_form);
        let mut validation_error_strings: Vec<String> = Vec::new();
        let mut i: usize = 0;
        while i < validation_errors.len()
            invariant
                i <= validation_errors.len(),
                texts_view(validation_error_strings@) == validation_errors@.take(
                    i as int,
                ).map_values(|error: RegisterFormValidationError| validation_message(error)),
            decreases validation_errors.len() - i,
        {
            let ghost shown = texts_view(validation_error_strings@);
            validation_error_strings.push(validation_error_to_string(validation_errors[i]));
            assert(texts_view(validation_error_strings@) =~= shown.push(
                validation_message(validation_errors[i as int]),
            ));
            assert(texts_view(validation_error_strings@) =~= validation_errors@.take(
                i + 1,
            ).map_values(|error: RegisterFormValidationError| validation_message(error)));
            i += 1;
        }
        assert(validation_errors@.take(i as int) =~= validation_errors@);
        Ok(
            Reply::Page {
                status: BAD_REQUEST,
                content_type: None,
                template: String::from_str("pages/register"),
                data: PageData::Register { errors: validation_error_strings, previous },
            },
        )
    } else {
        let registered_user_result = User::register(
            db,
            &sanitized_form.user_name,
            &sanitized_form.password,
        );
        answer(registered_user_result, session, &sanitized_form)
    }
}

/// The empty form.
pub fn get() -> (r: Result<Reply, RyobError>)
    ensures
        r matches Ok(reply) && reply@ == (ReplyView::Page {
            status: OK,
            content_type: None,
            template: "pages/register"@,
            data: PageDataView::Empty,
        }),
{
    Ok(
        Reply::Page {
            status: OK,
            content_type: None,
            template: String::from_str("pages/register"),
            data: PageData::Empty,
        },
    )
}

} // verus!
