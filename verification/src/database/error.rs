//! What a query can fail with.

use vstd::prelude::*;
use vstd::string::*;

verus! {

/// The failure of a query or of an insertion.
#[derive(Debug)]
pub enum DatabaseError {
    /// A query for a single row found none.
    NotFound,
    /// A row would have repeated a value that a constraint of the given name
    /// keeps unique.
    UniqueViolation(String),
    /// A row would have referred to a row that does not exist, against the
    /// constraint of the given name.
    ForeignKeyViolation(String),
    /// Any other failure, with its message.
    Unknown(String),
}

/// What a `DatabaseError` holds, as mathematical values.
pub enum DatabaseErrorView {
    NotFound,
    UniqueViolation(Seq<char>),
    ForeignKeyViolation(Seq<char>),
    Unknown(Seq<char>),
}

impl View for DatabaseError {
    type V = DatabaseErrorView;

    open spec fn view(&self) -> DatabaseErrorView {
        match self {
            DatabaseError::NotFound => DatabaseErrorView::NotFound,
            DatabaseError::UniqueViolation(name) => DatabaseErrorView::UniqueViolation(name@),
            DatabaseError::ForeignKeyViolation(name) => DatabaseErrorView::ForeignKeyViolation(
                name@,
            ),
            DatabaseError::Unknown(message) => DatabaseErrorView::Unknown(message@),
        }
    }
}

/// The constraint that keeps the names of users unique.
pub open spec fn users_user_name_key() -> Seq<char> {
    "users_user_name_key"@
}

/// The constraint that ties a topic to the user who created it.
pub open spec fn topics_created_by_fkey() -> Seq<char> {
    "topics_created_by_fkey"@
}

/// The constraint that ties a post to its topic.
pub open spec fn posts_posted_in_fkey() -> Seq<char> {
    "posts_posted_in_fkey"@
}

/// The constraint that ties a post to the user who created it.
pub open spec fn posts_created_by_fkey() -> Seq<char> {
    "posts_created_by_fkey"@
}

/// The message of the failure to number one more row.
pub open spec fn sequence_exhausted() -> Seq<char> {
    "nextval: reached maximum value of sequence"@
}

/// The message of the failure that a negative `LIMIT` gives.
pub open spec fn negative_limit() -> Seq<char> {
    "LIMIT must not be negative"@
}

/// The message of the failure that a negative `OFFSET` gives.
pub open spec fn negative_offset() -> Seq<char> {
    "OFFSET must not be negative"@
}

impl DatabaseError {
    /// The message of the error.
    pub fn to_string(&self) -> (r: String)
        ensures
            r@ == self@.message(),
    {
        match self {
            DatabaseError::NotFound => String::from_str("Record not found"),
            DatabaseError::UniqueViolation(name) => String::from_str(
                "duplicate key value violates unique constraint ",
            ).concat(name.as_str()),
            DatabaseError::ForeignKeyViolation(name) => String::from_str(
                "insert or update violates foreign key constraint ",
            ).concat(name.as_str()),
            DatabaseError::Unknown(message) => message.clone(),
        }
    }
}

impl Clone for DatabaseError {
    fn clone(&self) -> (r: Self)
        ensures
            r@ == self@,
    {
        match self {
            DatabaseError::NotFound => DatabaseError::NotFound,
            DatabaseError::UniqueViolation(name) => DatabaseError::UniqueViolation(name.clone()),
            DatabaseError::ForeignKeyViolation(name) => DatabaseError::ForeignKeyViolation(
                name.clone(),
            ),
            DatabaseError::Unknown(message) => DatabaseError::Unknown(message.clone()),
        }
    }
}

impl DatabaseErrorView {
    /// The message of the error.
    pub open spec fn message(self) -> Seq<char> {
        match self {
            DatabaseErrorView::NotFound => "Record not found"@,
            DatabaseErrorView::UniqueViolation(name) =>
                "duplicate key value violates unique constraint "@ + name,
            DatabaseErrorView::ForeignKeyViolation(name) =>
                "insert or update violates foreign key constraint "@ + name,
            DatabaseErrorView::Unknown(message) => message,
        }
    }
}

} // verus!
