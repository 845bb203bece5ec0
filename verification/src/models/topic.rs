//! Topics.

use crate::database::error::{DatabaseError, DatabaseErrorView};
use crate::database::store::{topic_rows_view, Database};
use crate::models::user::{User, UserId, UserView};
use crate::utils::clock;
use crate::utils::errors::{RyobError, INTERNAL_SERVER_ERROR};
use crate::utils::id::Id;
use vstd::prelude::*;

verus! {

/// The tag of identifiers of topics.
#[derive(Debug)]
pub struct TopicKind;

/// The identifier of a topic.
pub type TopicId = Id<TopicKind>;

/// A row of the table of topics. `created_at` counts microseconds since the
/// first of January 1970, UTC.
#[derive(Debug)]
pub struct Topic {
    pub id: TopicId,
    pub title: String,
    pub created_by: UserId,
    pub created_at: i64,
}

/// What a `Topic` holds, as mathematical values.
pub struct TopicView {
    pub id: int,
    pub title: Seq<char>,
    pub created_by: int,
    pub created_at: int,
}

impl View for Topic {
    type V = TopicView;

    open spec fn view(&self) -> TopicView {
        TopicView {
            id: self.id@,
            title: self.title@,
            created_by: self.created_by@,
            created_at: self.created_at as int,
        }
    }
}

impl Clone for Topic {
    fn clone(&self) -> (r: Self)
        ensures
            r@ == self@,
    {
        Topic {
            id: self.id,
            title: self.title.clone(),
            created_by: self.created_by,
            created_at: self.created_at,
        }
    }
}

/// A topic that is about to be stored: a row without its identifier.
#[derive(Debug)]
pub struct NewTopic {
    pub title: String,
    pub created_by: UserId,
    pub created_at: i64,
}

/// What an operation on topics can fail with.
#[derive(Debug)]
pub enum TopicError {
    /// The database failed.
    UnknownDatabaseError(DatabaseError),
    /// Any other failure.
    Unknown(String),
}

/// What a `TopicError` holds, as mathematical values.
pub enum TopicErrorView {
    UnknownDatabaseError(DatabaseErrorView),
    Unknown(Seq<char>),
}

impl View for TopicError {
    type V = TopicErrorView;

    open spec fn view(&self) -> TopicErrorView {
        match self {
            TopicError::UnknownDatabaseError(error) => TopicErrorView::UnknownDatabaseError(
                error@,
            ),
            TopicError::Unknown(reason) => TopicErrorView::Unknown(reason@),
        }
    }
}

impl TopicErrorView {
    /// The message of the error.
    pub open spec fn message(self) -> Seq<char> {
        match self {
            TopicErrorView::UnknownDatabaseError(error) => error.message(),
            TopicErrorView::Unknown(reason) => reason,
        }
    }
}

impl TopicError {
    /// The message of the error.
    pub fn to_string(&self) -> (r: String)
        ensures
            r@ == self@.message(),
    {
        match self {
            TopicError::UnknownDatabaseError(error) => error.to_string(),
            TopicError::Unknown(reason) => reason.clone(),
        }
    }
}

impl vstd::std_specs::convert::FromSpecImpl<DatabaseError> for TopicError {
    open spec fn obeys_from_spec() -> bool {
        true
    }

    open spec fn from_spec(error: DatabaseError) -> TopicError {
        TopicError::UnknownDatabaseError(error)
    }
}

impl From<DatabaseError> for TopicError {
    fn from(error: DatabaseError) -> (r: TopicError)
        ensures
            r@ == TopicErrorView::UnknownDatabaseError(error@),
    {
        TopicError::UnknownDatabaseError(error)
    }
}

/// Two texts of the same characters are not known to be the same value, so
/// what the conversion returns is stated of its status and of the characters
/// of its message, by `from` itself.
impl vstd::std_specs::convert::FromSpecImpl<TopicError> for RyobError {
    open spec fn obeys_from_spec() -> bool {
        false
    }

    open spec fn from_spec(error: TopicError) -> RyobError {
        RyobError(INTERNAL_SERVER_ERROR, choose|message: String| message@ == error@.message())
    }
}

impl From<TopicError> for RyobError {
    fn from(error: TopicError) -> (r: RyobError)
        ensures
            r.0 == INTERNAL_SERVER_ERROR,
            r.1@ == error@.message(),
    {
        RyobError(INTERNAL_SERVER_ERROR, error.to_string())
    }
}

impl Topic {
    /// Stores a topic that `creator` opened at the time `created_at`, and
    /// returns the stored row. A creator who is not stored, and any other
    /// failure of the database, comes back as `UnknownDatabaseError`; nothing
    /// is stored then.
    pub fn create_at(db: &mut Database, creator: UserId, title: &String, created_at: i64) -> (r:
        Result<Topic, TopicError>)
        requires
            old(db).wf(),
        ensures
            final(db).wf(),
            final(db)@ == old(db)@.insert_topic(title@, creator@, created_at as int),
            match r {
                Ok(topic) => old(db)@.insert_topic_result(title@, creator@, created_at as int)
                    == Ok::<_, DatabaseErrorView>(topic@),
                Err(error) => old(db)@.insert_topic_result(title@, creator@, created_at as int)
                    == Err::<TopicView, _>(error@->UnknownDatabaseError_0) && error@
                    is UnknownDatabaseError,
            },
    {
        let new_topic = NewTopic { title: title.clone(), created_by: creator, created_at };
        match db.insert_topic(new_topic) {
            Ok(topic) => Ok(topic),
            Err(error) => Err(TopicError::from(error)),
        }
    }

    /// Stores a topic that `creator` opens now. The time is read from the
    /// clock, so the contract says what holds whatever the clock shows: the
    /// outcome is that of `create_at` at some time.
    pub fn create(db: &mut Database, creator: UserId, title: &String) -> (r: Result<
        Topic,
        TopicError,
    >)
        requires
            old(db).wf(),
        ensures
            final(db).wf(),
            exists|created_at: int|
                {
                    &&& i64::MIN <= created_at <= i64::MAX
                    &&& final(db)@ == #[trigger] old(db)@.insert_topic(title@, creator@, created_at)
                    &&& match r {
                        Ok(topic) => old(db)@.insert_topic_result(title@, creator@, created_at)
                            == Ok::<_, DatabaseErrorView>(topic@),
                        Err(error) => old(db)@.insert_topic_result(title@, creator@, created_at)
                            == Err::<TopicView, _>(error@->UnknownDatabaseError_0) && error@
                            is UnknownDatabaseError,
                    }
                },
    {
        let timestamp = clock::now();
        let r = Topic::create_at(db, creator, title, timestamp);
        assert(db@ == old(db)@.insert_topic(title@, creator@, timestamp as int));
        r
    }

    /// The topics `offset` to `offset + limit` of the listing that shows the
    /// newest first, each with the user who created it. A negative `offset`
    /// or `limit` is a failure of the database.
    pub fn by_date(db: &Database, offset: i64, limit: i64) -> (r: Result<
        Vec<(Topic, User)>,
        TopicError,
    >)
        requires
            db.wf(),
        ensures
            match r {
                Ok(rows) => db@.topics_by_date(offset as int, limit as int) == Ok::<
                    _,
                    DatabaseErrorView,
                >(topic_rows_view(rows@)),
                Err(error) => db@.topics_by_date(offset as int, limit as int) == Err::<
                    Seq<(TopicView, UserView)>,
                    _,
                >(error@->UnknownDatabaseError_0) && error@ is UnknownDatabaseError,
            },
    {
        match db.topics_by_date(offset, limit) {
            Ok(rows) => Ok(rows),
            Err(error) => Err(TopicError::from(error)),
        }
    }
}

} // verus!
