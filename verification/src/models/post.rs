//! Posts.

use crate::database::error::{DatabaseError, DatabaseErrorView};
use crate::database::store::{post_rows_view, Database};
use crate::models::topic::TopicId;
use crate::models::user::{User, UserId, UserView};
use crate::utils::clock;
use crate::utils::errors::{RyobError, INTERNAL_SERVER_ERROR};
use crate::utils::id::Id;
use vstd::prelude::*;

verus! {

/// The tag of identifiers of posts.
#[derive(Debug)]
pub struct PostKind;

/// The identifier of a post.
pub type PostId = Id<PostKind>;

/// A row of the table of posts. `created_at` counts microseconds since the
/// first of January 1970, UTC.
#[derive(Debug)]
pub struct Post {
    pub id: PostId,
    pub posted_in: TopicId,
    pub created_by: UserId,
    pub created_at: i64,
    pub content: String,
}

/// What a `Post` holds, as mathematical values.
pub struct PostView {
    pub id: int,
    pub posted_in: int,
    pub created_by: int,
    pub created_at: int,
    pub content: Seq<char>,
}

impl View for Post {
    type V = PostView;

    open spec fn view(&self) -> PostView {
        PostView {
            id: self.id@,
            posted_in: self.posted_in@,
            created_by: self.created_by@,
            created_at: self.created_at as int,
            content: self.content@,
        }
    }
}

impl Clone for Post {
    fn clone(&self) -> (r: Self)
        ensures
            r@ == self@,
    {
        Post {
            id: self.id,
            posted_in: self.posted_in,
            created_by: self.created_by,
            created_at: self.created_at,
            content: self.content.clone(),
        }
    }
}

/// A post that is about to be stored: a row without its identifier.
#[derive(Debug)]
pub struct NewPost {
    pub posted_in: TopicId,
    pub created_by: UserId,
    pub created_at: i64,
    pub content: String,
}

/// What an operation on posts can fail with.
#[derive(Debug)]
pub enum PostError {
    /// The database failed.
    UnknownDatabaseError(DatabaseError),
    /// Any other failure.
    Unknown(String),
}

/// What a `PostError` holds, as mathematical values.
pub enum PostErrorView {
    UnknownDatabaseError(DatabaseErrorView),
    Unknown(Seq<char>),
}

impl View for PostError {
    type V = PostErrorView;

    open spec fn view(&self) -> PostErrorView {
        match self {
            PostError::UnknownDatabaseError(error) => PostErrorView::UnknownDatabaseError(error@),
            PostError::Unknown(reason) => PostErrorView::Unknown(reason@),
        }
    }
}

impl PostErrorView {
    /// The message of the error.
    pub open spec fn message(self) -> Seq<char> {
        match self {
            PostErrorView::UnknownDatabaseError(error) => error.message(),
            PostErrorView::Unknown(reason) => reason,
        }
    }
}

impl PostError {
    /// The message of the error.
    pub fn to_string(&self) -> (r: String)
        ensures
            r@ == self@.message(),
    {
        match self {
            PostError::UnknownDatabaseError(error) => error.to_string(),
            PostError::Unknown(reason) => reason.clone(),
        }
    }
}

impl vstd::std_specs::convert::FromSpecImpl<DatabaseError> for PostError {
    open spec fn obeys_from_spec() -> bool {
        true
    }

    open spec fn from_spec(error: DatabaseError) -> PostError {
        PostError::UnknownDatabaseError(error)
    }
}

impl From<DatabaseError> for PostError {
    fn from(error: DatabaseError) -> (r: PostError)
        ensures
            r@ == PostErrorView::UnknownDatabaseError(error@),
    {
        PostError::UnknownDatabaseError(error)
    }
}

/// Two texts of the same characters are not known to be the same value, so
/// what the conversion returns is stated of its status and of the characters
/// of its message, by `from` itself.
impl vstd::std_specs::convert::FromSpecImpl<PostError> for RyobError {
    open spec fn obeys_from_spec() -> bool {
        false
    }

    open spec fn from_spec(error: PostError) -> RyobError {
        RyobError(INTERNAL_SERVER_ERROR, choose|message: String| message@ == error@.message())
    }
}

impl From<PostError> for RyobError {
    fn from(error: PostError) -> (r: RyobError)
        ensures
            r.0 == INTERNAL_SERVER_ERROR,
            r.1@ == error@.message(),
    {
        RyobError(INTERNAL_SERVER_ERROR, error.to_string())
    }
}

impl Post {
    /// Stores a post that `creator` wrote in `topic` at the time
    /// `created_at`, and returns the stored row. A topic or a creator that is
    /// not stored, and any other failure of the database, comes back as
    /// `UnknownDatabaseError`; nothing is stored then.
    pub fn create_at(
        db: &mut Database,
        creator: UserId,
        topic: TopicId,
        content: &String,
        created_at: i64,
    ) -> (r: Result<Post, PostError>)
        requires
            old(db).wf(),
        ensures
            final(db).wf(),
            final(db)@ == old(db)@.insert_post(topic@, creator@, created_at as int, content@),
            match r {
                Ok(post) => old(db)@.insert_post_result(
                    topic@,
                    creator@,
                    created_at as int,
                    content@,
                ) == Ok::<_, DatabaseErrorView>(post@),
                Err(error) => old(db)@.insert_post_result(
                    topic@,
                    creator@,
                    created_at as int,
                    content@,
                ) == Err::<PostView, _>(error@->UnknownDatabaseError_0) && error@
                    is UnknownDatabaseError,
            },
    {
        let new_post = NewPost {
            posted_in: topic,
            created_by: creator,
            created_at,
            content: content.clone(),
        };
        match db.insert_post(new_post) {
            Ok(post) => Ok(post),
            Err(error) => Err(PostError::from(error)),
        }
    }

    /// Stores a post that `creator` writes in `topic` now. The time is read
    /// from the clock, so the contract says what holds whatever the clock
    /// shows: the outcome is that of `create_at` at some time.
    pub fn create(db: &mut Database, creator: UserId, topic: TopicId, content: &String) -> (r:
        Result<Post, PostError>)
        requires
            old(db).wf(),
        ensures
            final(db).wf(),
            exists|created_at: int|
                {
                    &&& i64::MIN <= created_at <= i64::MAX
                    &&& final(db)@ == #[trigger] old(db)@.insert_post(
                        topic@,
                        creator@,
                        created_at,
                        content@,
                    )
                    &&& match r {
                        Ok(post) => old(db)@.insert_post_result(
                            topic@,
                            creator@,
                            created_at,
                            content@,
                        ) == Ok::<_, DatabaseErrorView>(post@),
                        Err(error) => old(db)@.insert_post_result(
                            topic@,
                            creator@,
                            created_at,
                            content@,
                        ) == Err::<PostView, _>(error@->UnknownDatabaseError_0) && error@
                            is UnknownDatabaseError,
                    }
                },
    {
        let timestamp = clock::now();
        let r = Post::create_at(db, creator, topic, content, timestamp);
        assert(db@ == old(db)@.insert_post(topic@, creator@, timestamp as int, content@));
        r
    }

    /// The posts `offset` to `offset + limit` of the listing that shows the
    /// posts of `topic`, newest first, each with the user who created it. A
    /// negative `offset` or `limit` is a failure of the database.
    pub fn in_topic_by_date(db: &Database, topic: TopicId, offset: i64, limit: i64) -> (r: Result<
        Vec<(Post, User)>,
        PostError,
    >)
        requires
            db.wf(),
        ensures
            match r {
                Ok(rows) => db@.posts_in_topic_by_date(topic@, offset as int, limit as int)
                    == Ok::<_, DatabaseErrorView>(post_rows_view(rows@)),
                Err(error) => db@.posts_in_topic_by_date(topic@, offset as int, limit as int)
                    == Err::<Seq<(PostView, UserView)>, _>(error@->UnknownDatabaseError_0)
                    && error@ is UnknownDatabaseError,
            },
    {
        match db.posts_in_topic_by_date(topic, offset, limit) {
            Ok(rows) => Ok(rows),
            Err(error) => Err(PostError::from(error)),
        }
    }
}

} // verus!
