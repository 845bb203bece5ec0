//! The home page.

use crate::controllers::reply::{PageData, PageDataView, Reply, ReplyView};
use crate::database::store::Database;
use crate::models::session::Session;
use crate::models::user::User;
use crate::utils::errors::{RyobError, OK};
use vstd::prelude::*;
use vstd::string::*;

verus! {

/// The home page, with the user who is logged in, if any. Where the session
/// names a user who is not stored, or cannot be read, the failure is passed
/// on with its status.
pub fn get(db: &Database, session: &Session) -> (r: Result<Reply, RyobError>)
    requires
        db.wf(),
    ensures
        match User::from_session_result(db@, session@) {
            Ok(user) => r matches Ok(reply) && reply@ == (ReplyView::Page {
                status: OK,
                content_type: None,
                template: "pages/index"@,
                data: PageDataView::Home { user },
            }),
            Err(error) => r matches Err(failure) && failure.0 == error.status() && failure.1@
                == error.message(),
        },
{
    let user = match User::from_session(db, session) {
        Ok(user) => user,
        Err(error) => {
            return Err(RyobError::from(error));
        },
    };
    Ok(
        Reply::Page {
            status: OK,
            content_type: None,
            template: String::from_str("pages/index"),
            data: PageData::Home { user },
        },
    )
}

} // verus!
