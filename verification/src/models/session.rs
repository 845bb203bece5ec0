//! What the session cookie of a request says about who sent it.

use crate::models::user::UserId;
use vstd::prelude::*;

verus! {

/// The entry that a session holds under its one key, `user`.
#[derive(Debug)]
pub enum Session {
    /// No identifier is present: nobody is logged in.
    Anonymous,
    /// The identifier of the user who is logged in.
    Authenticated(UserId),
    /// An entry is present that cannot be read as an identifier. The text
    /// says why.
    Unreadable(String),
}

/// What a `Session` holds, as mathematical values.
pub enum SessionView {
    Anonymous,
    Authenticated(int),
    Unreadable(Seq<char>),
}

impl View for Session {
    type V = SessionView;

    open spec fn view(&self) -> SessionView {
        match self {
            Session::Anonymous => SessionView::Anonymous,
            Session::Authenticated(id) => SessionView::Authenticated(id@),
            Session::Unreadable(reason) => SessionView::Unreadable(reason@),
        }
    }
}

impl Session {
    /// The session of a request that came without a cookie.
    pub fn new() -> (r: Session)
        ensures
            r@ == SessionView::Anonymous,
    {
        Session::Anonymous
    }
}

} // verus!
