//! Login at `/users/login`.

use crate::controllers::reply::{PageData, PageDataView, Reply, ReplyView};
use crate::database::store::Database;
use crate::models::session::{Session, SessionView};
use crate::models::user::{LoginOutcome, User, UserError, UserErrorView};
use crate::utils::errors::{RyobError, INTERNAL_SERVER_ERROR, OK, UNAUTHORIZED};
use crate::utils::text::trimmed;
use vstd::prelude::*;
use vstd::string::*;

verus! {

/// What a visitor submits to log in.
#[derive(Debug)]
pub struct LoginForm {
    pub user_name: String,
    pub password: String,
}

/// What is shown again of a form that was refused: the name, not the
/// password.
#[derive(Debug)]
pub struct PreviousLoginForm {
    pub user_name: String,
}

impl View for PreviousLoginForm {
    type V = Seq<char>;

    open spec fn view(&self) -> Seq<char> {
        self.user_name@
    }
}

/// The form with the white space around the name removed.
pub fn sanitize_login_form(form: &LoginForm) -> (r: LoginForm)
    ensures
        r.user_name@ == trimmed(form.user_name@),
        r.password@ == form.password@,
{
    LoginForm {
        user_name: form.user_name.as_str().trim().to_owned(),
        password: form.password.clone(),
    }
}

/// What is shown again of the form.
pub fn login_form_to_previous(form: &LoginForm) -> (r: PreviousLoginForm)
    ensures
        r@ == form.user_name@,
{
    PreviousLoginForm { user_name: form.user_name.clone() }
}

/// The answer to a login that was refused: the form again under the status
/// 401, with the complaint and the given name.
pub open spec fn bad_login_reply(user_name: Seq<char>) -> ReplyView {
    ReplyView::Page {
        status: UNAUTHORIZED,
        content_type: None,
        template: "pages/login"@,
        data: PageDataView::Login {
            errors: seq!["Incorrect username or password"@],
            previous: user_name,
        },
    }
}

/// What is answered once the login has been tried. A user is logged in and
/// sent to the home page. `BadLogin` shows the form again, with the name of
/// the given form, and leaves the session alone. Any other failure is passed
/// on with its status.
pub fn answer(outcome: Result<User, UserError>, session: &mut Session, form: &LoginForm) -> (r:
    Result<Reply, RyobError>)
    ensures
        match outcome {
            Ok(user) => {
                &&& r matches Ok(reply)
                &&& reply@ == (ReplyView::Redirect { location: "/"@ })
                &&& final(session)@ == SessionView::Authenticated(user.id@)
            },
            Err(error) => {
                &&& final(session)@ == old(session)@
                &&& if error@ == UserErrorView::BadLogin {
                    r matches Ok(reply) && reply@ == bad_login_reply(form.user_name@)
                } else {
                    r matches Err(failure) && failure.0 == error@.status() && failure.1@
                        == error@.message()
                }
            },
        },
{
    match outcome {
        Err(UserError::BadLogin) => {
            let previous = login_form_to_previous(form);
            let mut errors: Vec<String> = Vec::new();
            errors.push(String::from_str("Incorrect username or password"));
            let reply = Reply::Page {
                status: UNAUTHORIZED,
                content_type: None,
                template: String::from_str("pages/login"),
                data: PageData::Login { errors, previous },
            };
            assert(reply@->Page_data->Login_errors =~= seq!["Incorrect username or password"@]);
            Ok(reply)
        },
        Err(error) => Err(RyobError::from(error)),
        Ok(user) => {
            match user.to_session(session) {
                Ok(_) => Ok(Reply::Redirect { location: String::from_str("/") }),
                Err(error) => Err(RyobError::from(error)),
            }
        },
    }
}

/// Takes a submitted form and logs the visitor in under the name as it was
/// entered; only the name that is shown again has the white space around it
/// removed.
///
/// Where the user of that name exists and the password verifies against the
/// stored hash, the session holds the identifier of that user and the
/// visitor is sent to the home page. Where no user has that name, or the
/// password is not theirs, the form is shown again under the status 401, and
/// the answer does not tell which of the two failed. Where the password
/// cannot be compared with the stored hash, the failure is passed on under
/// the status 500.
pub fn post(db: &Database, session: &mut Session, form: &LoginForm) -> (r: Result<
    Reply,
    RyobError,
>)
    requires
        db.wf(),
    ensures
        match User::login_outcome(db@, form.user_name@, form.password@) {
            LoginOutcome::Welcome(user) => {
                &&& r matches Ok(reply)
                &&& reply@ == (ReplyView::Redirect { location: "/"@ })
                &&& final(session)@ == SessionView::Authenticated(user.id)
            },
            LoginOutcome::BadLogin => {
                &&& r matches Ok(reply)
                &&& reply@ == bad_login_reply(trimmed(form.user_name@))
                &&& final(session)@ == old(session)@
            },
            LoginOutcome::HashFailure => {
                &&& r matches Err(failure)
                &&& failure.0 == INTERNAL_SERVER_ERROR
                &&& final(session)@ == old(session)@
            },
        },
{
    let sanitized_form = sanitize_login_form(form);
    let user_result = User::login(db, &form.user_name, &form.password);
    answer(user_result, session, &sanitized_form)
}

/// The empty form.
pub fn get() -> (r: Result<Reply, RyobError>)
    ensures
        r matches Ok(reply) && reply@ == (ReplyView::Page {
            status: OK,
            content_type: None,
            template: "pages/login"@,
            data: PageDataView::Empty,
        }),
{
    Ok(
        Reply::Page {
            status: OK,
            content_type: None,
            template: String::from_str("pages/login"),
            data: PageData::Empty,
        },
    )
}

} // verus!
