//! The answer to a request, before it is rendered.

use crate::controllers::register::RegistrationFormPrevious;
use crate::controllers::users::login::PreviousLoginForm;
use crate::controllers::users::register::PreviousRegisterForm;
use crate::models::user::{User, UserView};
use crate::utils::errors::FOUND;
use vstd::prelude::*;

verus! {

/// The texts of a list, as sequences of characters.
pub open spec fn texts_view(texts: Seq<String>) -> Seq<Seq<char>> {
    texts.map_values(|text: String| text@)
}

/// What a template is rendered with.
#[derive(Debug)]
#[allow(inconsistent_fields)]
pub enum PageData {
    /// No data.
    Empty,
    /// The home page: the user who is logged in, if any.
    Home { user: Option<User> },
    /// The registration form at `/register`, shown again with the rule that
    /// the submission broke and the name that was entered.
    Registration { error: String, previous: RegistrationFormPrevious },
    /// The registration form at `/users/register`, shown again with every
    /// complaint about the submission and the name that was entered.
    Register { errors: Vec<String>, previous: PreviousRegisterForm },
    /// The login form, shown again with every complaint about the submission
    /// and the name that was entered.
    Login { errors: Vec<String>, previous: PreviousLoginForm },
}

/// What a `PageData` holds, as mathematical values.
pub enum PageDataView {
    Empty,
    Home { user: Option<UserView> },
    Registration { error: Seq<char>, previous: Seq<char> },
    Register { errors: Seq<Seq<char>>, previous: Seq<char> },
    Login { errors: Seq<Seq<char>>, previous: Seq<char> },
}

impl View for PageData {
    type V = PageDataView;

    open spec fn view(&self) -> PageDataView {
        match self {
            PageData::Empty => PageDataView::Empty,
            PageData::Home { user } => PageDataView::Home {
                user: match user {
                    Some(user) => Some(user@),
                    None => None,
                },
            },
            PageData::Registration { error, previous } => PageDataView::Registration {
                error: error@,
                previous: previous@,
            },
            PageData::Register { errors, previous } => PageDataView::Register {
                errors: texts_view(errors@),
                previous: previous@,
            },
            PageData::Login { errors, previous } => PageDataView::Login {
                errors: texts_view(errors@),
                previous: previous@,
            },
        }
    }
}

/// The answer to a request.
#[derive(Debug)]
pub enum Reply {
    /// The page that the template makes of the data, under the given status
    /// and, where one is given, the given content type.
    Page { status: u16, content_type: Option<String>, template: String, data: PageData },
    /// A redirect to the given location, under the status 302.
    Redirect { location: String },
    /// The given status and nothing else.
    Status { status: u16 },
}

/// What a `Reply` holds, as mathematical values.
pub enum ReplyView {
    Page { status: u16, content_type: Option<Seq<char>>, template: Seq<char>, data: PageDataView },
    Redirect { location: Seq<char> },
    Status { status: u16 },
}

impl View for Reply {
    type V = ReplyView;

    open spec fn view(&self) -> ReplyView {
        match self {
            Reply::Page { status, content_type, template, data } => ReplyView::Page {
                status: *status,
                content_type: match content_type {
                    Some(content_type) => Some(content_type@),
                    None => None,
                },
                template: template@,
                data: data@,
            },
            Reply::Redirect { location } => ReplyView::Redirect { location: location@ },
            Reply::Status { status } => ReplyView::Status { status: *status },
        }
    }
}

impl Reply {
    /// The HTTP status of the answer.
    pub fn status(&self) -> (r: u16)
        ensures
            r == self@.status(),
    {
        match self {
            Reply::Page { status, .. } => *status,
            Reply::Redirect { .. } => FOUND,
            Reply::Status { status } => *status,
        }
    }
}

impl ReplyView {
    /// The HTTP status of the answer.
    pub open spec fn status(self) -> u16 {
        match self {
            ReplyView::Page { status, .. } => status,
            ReplyView::Redirect { .. } => FOUND,
            ReplyView::Status { status } => status,
        }
    }
}

} // verus!
