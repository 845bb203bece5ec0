//! Registration at `/register`.
//!
//! The rules of this form: a name of 2 to 64 characters, each a letter, a
//! number or a space; a password of 8 to 256 characters, each a letter, a
//! number or a punctuation mark of ASCII; and a confirmation that repeats the
//! password. The form at `/users/register` has rules of its own.

use crate::controllers::reply::{PageData, PageDataView, Reply, ReplyView};
use crate::database::store::Database;
use crate::models::session::{Session, SessionView};
use crate::models::user::{User, UserError, UserErrorView, HASH_COST};
use crate::utils::errors::{RyobError, BAD_REQUEST, INTERNAL_SERVER_ERROR, OK};
use crate::utils::hashing::{bcrypt_verify, hash_shaped};
use crate::utils::text::{alphanumeric, ascii_punctuation, trimmed};
use vstd::prelude::*;
use vstd::string::*;

verus! {

/// The least number of characters of a name.
pub const MIN_USERNAME_SIZE: usize = 2;

/// The greatest number of characters of a name.
pub const MAX_USERNAME_SIZE: usize = 64;

/// The least number of characters of a password.
pub const MIN_PASSWORD_SIZE: usize = 8;

/// The greatest number of characters of a password.
pub const MAX_PASSWORD_SIZE: usize = 256;

/// What a visitor submits to register.
#[derive(Debug)]
pub struct RegistrationForm {
    pub user_name: String,
    pub password: String,
    pub password_confirm: String,
}

/// What is shown again of a form that was refused: the name, not the
/// password.
#[derive(Debug)]
pub struct RegistrationFormPrevious {
    pub user_name: String,
}

impl View for RegistrationFormPrevious {
    type V = Seq<char>;

    open spec fn view(&self) -> Seq<char> {
        self.user_name@
    }
}

/// The rule that a form breaks.
#[derive(Clone, Copy, Debug, PartialEq, Eq)]
pub enum RegistrationFormValidationError {
    NameTooShort,
    NameTooLong,
    NameInvalidCharacters,
    PasswordTooShort,
    PasswordTooLong,
    PasswordInsecure,
    PasswordInvalidCharacters,
    PasswordMismatch,
}

/// Whether a name may hold the character.
pub open spec fn name_char(c: char) -> bool {
    c == ' ' || alphanumeric(c)
}

/// Whether a password may hold the character.
pub open spec fn password_char(c: char) -> bool {
    ascii_punctuation(c) || alphanumeric(c)
}

/// Whether a name may hold every character of the text.
pub open spec fn name_chars(text: Seq<char>) -> bool {
    forall|i: int| 0 <= i < text.len() ==> name_char(#[trigger] text[i])
}

/// Whether a password may hold every character of the text.
pub open spec fn password_chars(text: Seq<char>) -> bool {
    forall|i: int| 0 <= i < text.len() ==> password_char(#[trigger] text[i])
}

/// The verdict on a form: the first rule that it breaks, in the order name
/// length, name characters, password length, password characters,
/// confirmation.
pub open spec fn registration_form_verdict(
    user_name: Seq<char>,
    password: Seq<char>,
    password_confirm: Seq<char>,
) -> Result<(), RegistrationFormValidationError> {
    if user_name.len() < MIN_USERNAME_SIZE {
        Err(RegistrationFormValidationError::NameTooShort)
    } else if user_name.len() > MAX_USERNAME_SIZE {
        Err(RegistrationFormValidationError::NameTooLong)
    } else if !name_chars(user_name) {
        Err(RegistrationFormValidationError::NameInvalidCharacters)
    } else if password.len() < MIN_PASSWORD_SIZE {
        Err(RegistrationFormValidationError::PasswordTooShort)
    } else if password.len() > MAX_PASSWORD_SIZE {
        Err(RegistrationFormValidationError::PasswordTooLong)
    } else if !password_chars(password) {
        Err(RegistrationFormValidationError::PasswordInvalidCharacters)
    } else if password != password_confirm {
        Err(RegistrationFormValidationError::PasswordMismatch)
    } else {
        Ok(())
    }
}

/// What the visitor is told about the rule that the form breaks.
pub open spec fn registration_form_message(error: RegistrationFormValidationError) -> Seq<char> {
    match error {
        RegistrationFormValidationError::NameTooShort
        | RegistrationFormValidationError::NameTooLong
        | RegistrationFormValidationError::NameInvalidCharacters =>
            "Name must be between 2 and 64 alpha-numeric characters or spaces"@,
        RegistrationFormValidationError::PasswordTooShort
        | RegistrationFormValidationError::PasswordTooLong
        | RegistrationFormValidationError::PasswordInvalidCharacters =>
            "Password must be between 8 and 256 alpha-numeric characters or punctuation symbols"@,
        RegistrationFormValidationError::PasswordInsecure => "Password is not secure enough"@,
        RegistrationFormValidationError::PasswordMismatch => "Passwords do not match"@,
    }
}

/// The answer to a form that breaks a rule: the form again, with the message
/// and the name that was entered.
pub open spec fn registration_form_invalid_reply(
    user_name: Seq<char>,
    error: RegistrationFormValidationError,
) -> ReplyView {
    ReplyView::Page {
        status: BAD_REQUEST,
        content_type: Some("text/html; charset=utf-8"@),
        template: "register"@,
        data: PageDataView::Registration {
            error: registration_form_message(error),
            previous: user_name,
        },
    }
}

/// The form with the white space around the name removed.
pub fn registration_form_sanitize(form: &RegistrationForm) -> (r: RegistrationForm)
    ensures
        r.user_name@ == trimmed(form.user_name@),
        r.password@ == form.password@,
        r.password_confirm@ == form.password_confirm@,
{
    RegistrationForm {
        user_name: form.user_name.as_str().trim().to_owned(),
        password: form.password.clone(),
        password_confirm: form.password_confirm.clone(),
    }
}

/// Whether a name may hold every character of the text.
fn has_name_chars(text: &str) -> (r: bool)
    ensures
        r == name_chars(text@),
{
    let mut ok = true;
    for c in it: text.chars()
        invariant
            it.seq() == text@,
            ok == (forall|i: int| 0 <= i < it.index() ==> name_char(#[trigger] text@[i])),
    {
        if !(c == ' ' || c.is_alphanumeric()) {
            ok = false;
        }
    }
    ok
}

/// Whether a password may hold every character of the text.
fn has_password_chars(text: &str) -> (r: bool)
    ensures
        r == password_chars(text@),
{
    let mut ok = true;
    for c in it: text.chars()
        invariant
            it.seq() == text@,
            ok == (forall|i: int| 0 <= i < it.index() ==> password_char(#[trigger] text@[i])),
    {
        if !(c.is_ascii_punctuation() || c.is_alphanumeric()) {
            ok = false;
        }
    }
    ok
}

/// Holds a form to the rules and returns the first that it breaks.
pub fn registration_form_validate(form: &RegistrationForm) -> (r: Result<
    (),
    RegistrationFormValidationError,
>)
    ensures
        r == registration_form_verdict(form.user_name@, form.password@, form.password_confirm@),
{
    let name_len = form.user_name.as_str().unicode_len();
    let password_len = form.password.as_str().unicode_len();
    if name_len < MIN_USERNAME_SIZE {
        Err(RegistrationFormValidationError::NameTooShort)
    } else if name_len > MAX_USERNAME_SIZE {
        Err(RegistrationFormValidationError::NameTooLong)
    } else if !has_name_chars(form.user_name.as_str()) {
        Err(RegistrationFormValidationError::NameInvalidCharacters)
    } else if password_len < MIN_PASSWORD_SIZE {
        Err(RegistrationFormValidationError::PasswordTooShort)
    } else if password_len > MAX_PASSWORD_SIZE {
        Err(RegistrationFormValidationError::PasswordTooLong)
    } else if !has_password_chars(form.password.as_str()) {
        Err(RegistrationFormValidationError::PasswordInvalidCharacters)
    } else if !(form.password == form.password_confirm) {
        Err(RegistrationFormValidationError::PasswordMismatch)
    } else {
        Ok(())
    }
}

/// What is shown again of the form.
pub fn registration_form_to_previous(form: &RegistrationForm) -> (r: RegistrationFormPrevious)
    ensures
        r@ == form.user_name@,
{
    RegistrationFormPrevious { user_name: form.user_name.clone() }
}

/// The answer to a form that breaks a rule.
pub fn registration_form_invalid_handler(
    form: &RegistrationForm,
    error: RegistrationFormValidationError,
) -> (r: Reply)
    ensures
        r@ == registration_form_invalid_reply(form.user_name@, error),
{
    let message = match error {
        RegistrationFormValidationError::NameTooShort => String::from_str(
            "Name must be between 2 and 64 alpha-numeric characters or spaces",
        ),
        RegistrationFormValidationError::NameTooLong => String::from_str(
            "Name must be between 2 and 64 alpha-numeric characters or spaces",
        ),
        RegistrationFormValidationError::NameInvalidCharacters => String::from_str(
            "Name must be between 2 and 64 alpha-numeric characters or spaces",
        ),
        RegistrationFormValidationError::PasswordTooShort => String::from_str(
            "Password must be between 8 and 256 alpha-numeric characters or punctuation symbols",
        ),
        RegistrationFormValidationError::PasswordTooLong => String::from_str(
            "Password must be between 8 and 256 alpha-numeric characters or punctuation symbols",
        ),
        RegistrationFormValidationError::PasswordInvalidCharacters => String::from_str(
            "Password must be between 8 and 256 alpha-numeric characters or punctuation symbols",
        ),
        RegistrationFormValidationError::PasswordInsecure => String::from_str(
            "Password is not secure enough",
        ),
        RegistrationFormValidationError::PasswordMismatch => String::from_str(
            "Passwords do not match",
        ),
    };
    Reply::Page {
        status: BAD_REQUEST,
        content_type: Some(String::from_str("text/html; charset=utf-8")),
        template: String::from_str("register"),
        data: PageData::Registration {
            error: message,
            previous: registration_form_to_previous(form),
        },
    }
}

/// The answer to a failed registration that the visitor can mend: the form
/// again under the status of the error, with its message and the name that
/// was entered.
pub open spec fn registration_form_error_reply(
    user_name: Seq<char>,
    error: UserErrorView,
) -> ReplyView {
    ReplyView::Page {
        status: error.status(),
        content_type: Some("text/html; charset=utf-8"@),
        template: "register"@,
        data: PageDataView::Registration { error: error.message(), previous: user_name },
    }
}

/// Whether the error is one that the visitor can mend, as opposed to a
/// failure of the machinery: a name that is taken, a bad login, or a user who
/// is not there.
pub open spec fn is_domain_error(error: UserErrorView) -> bool {
    error is NameAlreadyInUse || error is BadLogin || error is NoSuchUser
}

/// The answer to a registration that succeeded: the user is logged in and
/// sent to the home page.
pub fn registration_form_ok_handler(user: &User, session: &mut Session) -> (r: Reply)
    ensures
        r@ == (ReplyView::Redirect { location: "/"@ }),
        final(session)@ == SessionView::Authenticated(user.id@),
{
    match user.to_session(session) {
        Ok(_) => Reply::Redirect { location: String::from_str("/") },
        Err(error) => Reply::Status { status: RyobError::from(error).0 },
    }
}

/// The answer to a registration that failed. An error that the visitor can
/// mend shows the form again under the status of the error, 409 for a name
/// that is taken, with the message of the error and the name of the given
/// form. A failure of the machinery is answered with the status 500 and
/// nothing else.
pub fn registration_form_error_handler(form: &RegistrationForm, error: UserError) -> (r: Reply)
    ensures
        r@ == if is_domain_error(error@) {
            registration_form_error_reply(form.user_name@, error@)
        } else {
            ReplyView::Status { status: INTERNAL_SERVER_ERROR }
        },
{
    match error {
        UserError::NameAlreadyInUse | UserError::BadLogin | UserError::NoSuchUser => {
            let message = error.to_string();
            let failure = RyobError::from(error);
            Reply::Page {
                status: failure.0,
                content_type: Some(String::from_str("text/html; charset=utf-8")),
                template: String::from_str("register"),
                data: PageData::Registration {
                    error: message,
                    previous: registration_form_to_previous(form),
                },
            }
        },
        _ => Reply::Status { status: INTERNAL_SERVER_ERROR },
    }
}

/// The empty form.
pub fn register_get() -> (r: Reply)
    ensures
        r@ == (ReplyView::Page {
            status: OK,
            content_type: None,
            template: "register"@,
            data: PageDataView::Empty,
        }),
{
    Reply::Page {
        status: OK,
        content_type: None,
        template: String::from_str("register"),
        data: PageData::Empty,
    }
}

/// Takes a submitted form: removes the white space around the name, holds
/// the form to the rules and registers the user.
///
/// A form that breaks a rule is answered by `registration_form_invalid_handler`
/// and changes nothing. Of a form that passes, the contract says what holds
/// whatever salt the hash gets. Either the visitor is sent to the home page,
/// and then the name was free, the new user is stored under the trimmed name
/// with a hash that the password verifies against, and the session holds the
/// new identifier. Or the form is shown again under the status 409 with the
/// message that the name is in use, and then the name is taken. Or the
/// answer is the status 500 and nothing else. In the last two cases nothing
/// has changed. A name that is taken never leads to the home page.
pub fn register_post(db: &mut Database, form: &RegistrationForm, session: &mut Session) -> (r:
    Reply)
    requires
        old(db).wf(),
    ensures
        final(db).wf(),
        match registration_form_verdict(
            trimmed(form.user_name@),
            form.password@,
            form.password_confirm@,
        ) {
            Err(error) => {
                &&& r@ == registration_form_invalid_reply(trimmed(form.user_name@), error)
                &&& final(db)@ == old(db)@
                &&& final(session)@ == old(session)@
            },
            Ok(_) => {
                ||| {
                    &&& r@ == (ReplyView::Redirect { location: "/"@ })
                    &&& !old(db)@.has_user_name(trimmed(form.user_name@))
                    &&& final(db)@.users.len() == old(db)@.users.len() + 1
                    &&& final(db)@ == old(db)@.insert_user(
                        trimmed(form.user_name@),
                        final(db)@.users.last().password_hash,
                    )
                    &&& final(db)@.users.last().user_name == trimmed(form.user_name@)
                    &&& hash_shaped(final(db)@.users.last().password_hash, HASH_COST)
                    &&& bcrypt_verify(form.password@, final(db)@.users.last().password_hash)
                        == Some(true)
                    &&& final(session)@ == SessionView::Authenticated(
                        final(db)@.users.last().id,
                    )
                }
                ||| {
                    &&& r@ == registration_form_error_reply(
                        trimmed(form.user_name@),
                        UserErrorView::NameAlreadyInUse,
                    )
                    &&& old(db)@.has_user_name(trimmed(form.user_name@))
                    &&& final(db)@ == old(db)@
                    &&& final(session)@ == old(session)@
                }
                ||| {
                    &&& r@ == (ReplyView::Status { status: INTERNAL_SERVER_ERROR })
                    &&& final(db)@ == old(db)@
                    &&& final(session)@ == old(session)@
                }
            },
        },
{
    let registration_form = registration_form_sanitize(form);
    let registration_form_validation_result = registration_form_validate(&registration_form);
    match registration_form_validation_result {
        Err(e) => registration_form_invalid_handler(&registration_form, e),
        Ok(_) => {
            let user_result = User::register(
                db,
                &registration_form.user_name,
                &registration_form.password,
            );
            match user_result {
                Ok(u) => registration_form_ok_handler(&u, session),
                Err(e) => registration_form_error_handler(&registration_form, e),
            }
        },
    }
}

} // verus!
