//! Accounts.

use crate::database::error::{
    sequence_exhausted, users_user_name_key, DatabaseError, DatabaseErrorView,
};
use crate::database::store::Database;
use crate::database::view::DatabaseView;
use crate::models::session::{Session, SessionView};
use crate::utils::errors::{
    RyobError, CONFLICT, INTERNAL_SERVER_ERROR, NOT_FOUND, UNAUTHORIZED,
};
use crate::utils::hashing;
use crate::utils::hashing::{bcrypt_verify, hash_shaped};
use crate::utils::id::Id;
use vstd::prelude::*;
use vstd::string::*;

verus! {

/// The tag of identifiers of users.
#[derive(Debug)]
pub struct UserKind;

/// The identifier of a user.
pub type UserId = Id<UserKind>;

/// A row of the table of users.
#[derive(Debug)]
pub struct User {
    pub id: UserId,
    pub user_name: String,
    pub password_hash: String,
}

/// What a `User` holds, as mathematical values.
pub struct UserView {
    pub id: int,
    pub user_name: Seq<char>,
    pub password_hash: Seq<char>,
}

impl View for User {
    type V = UserView;

    open spec fn view(&self) -> UserView {
        UserView {
            id: self.id@,
            user_name: self.user_name@,
            password_hash: self.password_hash@,
        }
    }
}

impl Clone for User {
    fn clone(&self) -> (r: Self)
        ensures
            r@ == self@,
    {
        User {
            id: self.id,
            user_name: self.user_name.clone(),
            password_hash: self.password_hash.clone(),
        }
    }
}

/// A user that is about to be stored: a row without its identifier.
#[derive(Debug)]
pub struct NewUser {
    pub user_name: String,
    pub password_hash: String,
}

/// The cost at which passwords are hashed: the hash takes two to the power
/// of this many rounds.
pub const HASH_COST: u32 = 10;

/// What an operation on users can fail with.
#[derive(Debug)]
pub enum UserError {
    /// A user of that name is registered already.
    NameAlreadyInUse,
    /// No user has that name, or the password is not theirs.
    BadLogin,
    /// No such user is stored.
    NoSuchUser,
    /// The password could not be hashed or compared. The text says why.
    UnknownHashError(String),
    /// The database failed.
    UnknownDatabaseError(DatabaseError),
    /// The session could not be read or written. The text says why.
    UnknownActixError(String),
    /// Any other failure.
    Unknown(String),
}

/// What a `UserError` holds, as mathematical values.
pub enum UserErrorView {
    NameAlreadyInUse,
    BadLogin,
    NoSuchUser,
    UnknownHashError(Seq<char>),
    UnknownDatabaseError(DatabaseErrorView),
    UnknownActixError(Seq<char>),
    Unknown(Seq<char>),
}

impl View for UserError {
    type V = UserErrorView;

    open spec fn view(&self) -> UserErrorView {
        match self {
            UserError::NameAlreadyInUse => UserErrorView::NameAlreadyInUse,
            UserError::BadLogin => UserErrorView::BadLogin,
            UserError::NoSuchUser => UserErrorView::NoSuchUser,
            UserError::UnknownHashError(reason) => UserErrorView::UnknownHashError(reason@),
            UserError::UnknownDatabaseError(error) => UserErrorView::UnknownDatabaseError(error@),
            UserError::UnknownActixError(reason) => UserErrorView::UnknownActixError(reason@),
            UserError::Unknown(reason) => UserErrorView::Unknown(reason@),
        }
    }
}

impl UserErrorView {
    /// The message of the error.
    pub open spec fn message(self) -> Seq<char> {
        match self {
            UserErrorView::NameAlreadyInUse => "Name already in use"@,
            UserErrorView::BadLogin => "Bad login"@,
            UserErrorView::NoSuchUser => "No such user"@,
            UserErrorView::UnknownHashError(reason) => reason,
            UserErrorView::UnknownDatabaseError(error) => error.message(),
            UserErrorView::UnknownActixError(reason) => reason,
            UserErrorView::Unknown(reason) => reason,
        }
    }

    /// The HTTP status that the error is answered with: 409 for a name that
    /// is taken, 401 for a bad login, 404 for a user who is not there, and
    /// 500 for every failure of the machinery.
    pub open spec fn status(self) -> u16 {
        match self {
            UserErrorView::NameAlreadyInUse => CONFLICT,
            UserErrorView::BadLogin => UNAUTHORIZED,
            UserErrorView::NoSuchUser => NOT_FOUND,
            _ => INTERNAL_SERVER_ERROR,
        }
    }

    /// What a failure of the database means for users: a query that found
    /// nothing says that there is no such user, a violation of the constraint
    /// on names says that the name is taken, and anything else is passed on.
    pub open spec fn from_database(error: DatabaseErrorView) -> UserErrorView {
        match error {
            DatabaseErrorView::NotFound => UserErrorView::NoSuchUser,
            DatabaseErrorView::UniqueViolation(constraint) => if constraint
                == users_user_name_key() {
                UserErrorView::NameAlreadyInUse
            } else {
                UserErrorView::UnknownDatabaseError(error)
            },
            _ => UserErrorView::UnknownDatabaseError(error),
        }
    }
}

impl UserError {
    /// The message of the error.
    pub fn to_string(&self) -> (r: String)
        ensures
            r@ == self@.message(),
    {
        match self {
            UserError::NameAlreadyInUse => String::from_str("Name already in use"),
            UserError::BadLogin => String::from_str("Bad login"),
            UserError::NoSuchUser => String::from_str("No such user"),
            UserError::UnknownHashError(reason) => reason.clone(),
            UserError::UnknownDatabaseError(error) => error.to_string(),
            UserError::UnknownActixError(reason) => reason.clone(),
            UserError::Unknown(reason) => reason.clone(),
        }
    }
}

impl From<DatabaseError> for UserError {
    fn from(error: DatabaseError) -> (r: UserError)
        ensures
            r@ == UserErrorView::from_database(error@),
    {
        match error {
            DatabaseError::NotFound => UserError::NoSuchUser,
            DatabaseError::UniqueViolation(constraint) => {
                if constraint == String::from_str("users_user_name_key") {
                    UserError::NameAlreadyInUse
                } else {
                    UserError::UnknownDatabaseError(DatabaseError::UniqueViolation(constraint))
                }
            },
            other => UserError::UnknownDatabaseError(other),
        }
    }
}

impl vstd::std_specs::convert::FromSpecImpl<DatabaseError> for UserError {
    open spec fn obeys_from_spec() -> bool {
        true
    }

    open spec fn from_spec(error: DatabaseError) -> UserError {
        match error {
            DatabaseError::NotFound => UserError::NoSuchUser,
            DatabaseError::UniqueViolation(constraint) => if constraint@
                == users_user_name_key() {
                UserError::NameAlreadyInUse
            } else {
                UserError::UnknownDatabaseError(error)
            },
            _ => UserError::UnknownDatabaseError(error),
        }
    }
}

/// Two texts of the same characters are not known to be the same value, so
/// what the conversion returns is stated of its status and of the characters
/// of its message, by `from` itself.
impl vstd::std_specs::convert::FromSpecImpl<UserError> for RyobError {
    open spec fn obeys_from_spec() -> bool {
        false
    }

    open spec fn from_spec(error: UserError) -> RyobError {
        RyobError(error@.status(), choose|message: String| message@ == error@.message())
    }
}

impl From<UserError> for RyobError {
    fn from(error: UserError) -> (r: RyobError)
        ensures
            r.0 == error@.status(),
            r.1@ == error@.message(),
    {
        let message = error.to_string();
        match error {
            UserError::NameAlreadyInUse => RyobError(CONFLICT, message),
            UserError::BadLogin => RyobError(UNAUTHORIZED, message),
            UserError::NoSuchUser => RyobError(NOT_FOUND, message),
            _ => RyobError(INTERNAL_SERVER_ERROR, message),
        }
    }
}

/// What a login comes to, given what is stored and what the comparison of
/// the password with the stored hash says.
pub enum LoginOutcome {
    /// The user of that name exists and the password is theirs.
    Welcome(UserView),
    /// No user has that name, or the password is not theirs.
    BadLogin,
    /// The password could not be compared with the stored hash.
    HashFailure,
}

impl User {
    /// What `login` comes to on the given database.
    pub open spec fn login_outcome(
        db: DatabaseView,
        user_name: Seq<char>,
        password: Seq<char>,
    ) -> LoginOutcome {
        if !db.has_user_name(user_name) {
            LoginOutcome::BadLogin
        } else {
            match bcrypt_verify(password, db.user_named(user_name).password_hash) {
                Some(true) => LoginOutcome::Welcome(db.user_named(user_name)),
                Some(false) => LoginOutcome::BadLogin,
                None => LoginOutcome::HashFailure,
            }
        }
    }

    /// Stores the user and says what became of it: the stored row with its
    /// new identifier, `NameAlreadyInUse` where the name is taken, and the
    /// failure of the database otherwise. Nothing is stored on failure.
    pub fn store(db: &mut Database, new_user: NewUser) -> (r: Result<User, UserError>)
        requires
            old(db).wf(),
        ensures
            final(db).wf(),
            final(db)@ == old(db)@.insert_user(new_user.user_name@, new_user.password_hash@),
            match r {
                Ok(user) => old(db)@.insert_user_result(
                    new_user.user_name@,
                    new_user.password_hash@,
                ) == Ok::<_, DatabaseErrorView>(user@),
                Err(error) => old(db)@.insert_user_result(
                    new_user.user_name@,
                    new_user.password_hash@,
                ) is Err && error@ == UserErrorView::from_database(
                    old(db)@.insert_user_result(
                        new_user.user_name@,
                        new_user.password_hash@,
                    )->Err_0,
                ),
            },
    {
        match db.insert_user(new_user) {
            Ok(user) => Ok(user),
            Err(error) => Err(UserError::from(error)),
        }
    }

    /// Registers a user: hashes the password with a fresh salt and stores the
    /// name with the hash.
    ///
    /// The hash depends on the salt, so the contract says what holds of every
    /// outcome. A user comes back only where the name was free; the row then
    /// holds the name as given and, in place of the password, a hash of the
    /// cost `HASH_COST` that the password verifies against.
    /// `NameAlreadyInUse` comes back only where the name was taken, and
    /// nothing is stored on any failure. Where hashing succeeds, the outcome
    /// is that of `store`.
    pub fn register(db: &mut Database, user_name: &String, password: &String) -> (r: Result<
        User,
        UserError,
    >)
        requires
            old(db).wf(),
        ensures
            final(db).wf(),
            match r {
                Ok(user) => {
                    &&& !old(db)@.has_user_name(user_name@)
                    &&& user@.id == old(db)@.next_user_id()
                    &&& user@.user_name == user_name@
                    &&& hash_shaped(user@.password_hash, HASH_COST)
                    &&& bcrypt_verify(password@, user@.password_hash) == Some(true)
                    &&& final(db)@ == old(db)@.insert_user(user_name@, user@.password_hash)
                    &&& final(db)@.users == old(db)@.users.push(user@)
                },
                Err(error) => {
                    &&& final(db)@ == old(db)@
                    &&& match error@ {
                        UserErrorView::NameAlreadyInUse => old(db)@.has_user_name(user_name@),
                        UserErrorView::UnknownHashError(_) => true,
                        UserErrorView::UnknownDatabaseError(reason) => {
                            &&& !old(db)@.has_user_name(user_name@)
                            &&& reason == DatabaseErrorView::Unknown(sequence_exhausted())
                        },
                        _ => false,
                    }
                },
            },
    {
        let hash = match hashing::hash(password, HASH_COST) {
            Ok(hash) => hash,
            Err(error) => {
                return Err(UserError::UnknownHashError(hashing::error_message(&error)));
            },
        };
        let new_user = NewUser { user_name: user_name.clone(), password_hash: hash };
        User::store(db, new_user)
    }

    /// What a login comes to once the user is found and the password has
    /// been compared with the stored hash: the user where it matched,
    /// `BadLogin` where it did not, and `UnknownHashError` with the reason
    /// where the comparison failed.
    pub fn login_verified(user: User, verified: Result<bool, String>) -> (r: Result<
        User,
        UserError,
    >)
        ensures
            match verified {
                Ok(true) => r == Ok::<_, UserError>(user),
                Ok(false) => r matches Err(error) && error@ == UserErrorView::BadLogin,
                Err(reason) => r matches Err(error) && error@ == UserErrorView::UnknownHashError(
                    reason@,
                ),
            },
    {
        match verified {
            Ok(true) => Ok(user),
            Ok(false) => Err(UserError::BadLogin),
            Err(reason) => Err(UserError::UnknownHashError(reason)),
        }
    }

    /// Logs a user in: the user of that name, where the password verifies
    /// against the stored hash. A name that nobody has and a password that
    /// does not match both give `BadLogin`, so the answer does not tell which
    /// of the two failed.
    pub fn login(db: &Database, user_name: &String, password: &String) -> (r: Result<
        User,
        UserError,
    >)
        requires
            db.wf(),
        ensures
            match r {
                Ok(user) => Self::login_outcome(db@, user_name@, password@)
                    == LoginOutcome::Welcome(user@),
                Err(error) => match Self::login_outcome(db@, user_name@, password@) {
                    LoginOutcome::Welcome(_) => false,
                    LoginOutcome::BadLogin => error@ == UserErrorView::BadLogin,
                    LoginOutcome::HashFailure => error@ is UnknownHashError,
                },
            },
    {
        let user = match User::by_user_name(db, user_name) {
            Ok(user) => user,
            Err(_) => {
                return Err(UserError::BadLogin);
            },
        };
        let verified = match hashing::verify(password, &user.password_hash) {
            Ok(matches) => Ok(matches),
            Err(error) => Err(hashing::error_message(&error)),
        };
        User::login_verified(user, verified)
    }

    /// The user of that name, or `NoSuchUser`.
    pub fn by_user_name(db: &Database, target_user_name: &String) -> (r: Result<User, UserError>)
        requires
            db.wf(),
        ensures
            match r {
                Ok(user) => db@.has_user_name(target_user_name@) && user@ == db@.user_named(
                    target_user_name@,
                ),
                Err(error) => !db@.has_user_name(target_user_name@) && error@
                    == UserErrorView::NoSuchUser,
            },
    {
        match db.first_user_by_name(target_user_name) {
            Ok(user) => Ok(user),
            Err(error) => Err(UserError::from(error)),
        }
    }

    /// The user of that identifier, or `NoSuchUser`.
    pub fn by_user_id(db: &Database, target_user_id: UserId) -> (r: Result<User, UserError>)
        requires
            db.wf(),
        ensures
            match r {
                Ok(user) => db@.has_user_id(target_user_id@) && user@ == db@.user_with_id(
                    target_user_id@,
                ),
                Err(error) => !db@.has_user_id(target_user_id@) && error@
                    == UserErrorView::NoSuchUser,
            },
    {
        match db.first_user_by_id(target_user_id) {
            Ok(user) => Ok(user),
            Err(error) => Err(UserError::from(error)),
        }
    }

    /// What `from_session` returns.
    pub open spec fn from_session_result(
        db: DatabaseView,
        session: SessionView,
    ) -> Result<Option<UserView>, UserErrorView> {
        match session {
            SessionView::Anonymous => Ok(None),
            SessionView::Authenticated(id) => if db.has_user_id(id) {
                Ok(Some(db.user_with_id(id)))
            } else {
                Err(UserErrorView::NoSuchUser)
            },
            SessionView::Unreadable(reason) => Err(UserErrorView::UnknownActixError(reason)),
        }
    }

    /// The user who sent the request: nobody for an anonymous session, the
    /// stored user for an authenticated one, `NoSuchUser` where that user is
    /// not stored, and `UnknownActixError` where the session cannot be read.
    pub fn from_session(db: &Database, session: &Session) -> (r: Result<Option<User>, UserError>)
        requires
            db.wf(),
        ensures
            match r {
                Ok(Some(user)) => Self::from_session_result(db@, session@) == Ok::<
                    _,
                    UserErrorView,
                >(Some(user@)),
                Ok(None) => Self::from_session_result(db@, session@) == Ok::<
                    Option<UserView>,
                    UserErrorView,
                >(None),
                Err(error) => Self::from_session_result(db@, session@) == Err::<
                    Option<UserView>,
                    _,
                >(error@),
            },
    {
        let user_id_maybe = match User::id_from_session(session) {
            Ok(id) => id,
            Err(error) => {
                return Err(error);
            },
        };
        match user_id_maybe {
            None => Ok(None),
            Some(id) => match User::by_user_id(db, id) {
                Ok(user) => Ok(Some(user)),
                Err(error) => Err(error),
            },
        }
    }

    /// The identifier that the session holds: none for an anonymous session,
    /// and `UnknownActixError` where the session cannot be read.
    pub fn id_from_session(session: &Session) -> (r: Result<Option<UserId>, UserError>)
        ensures
            match session@ {
                SessionView::Anonymous => r matches Ok(None),
                SessionView::Authenticated(id) => r matches Ok(Some(found)) && found@ == id,
                SessionView::Unreadable(reason) => r matches Err(error) && error@
                    == UserErrorView::UnknownActixError(reason),
            },
    {
        match session {
            Session::Anonymous => Ok(None),
            Session::Authenticated(id) => Ok(Some(*id)),
            Session::Unreadable(reason) => Err(UserError::UnknownActixError(reason.clone())),
        }
    }

    /// Writes the identifier of the user into the session, which is
    /// authenticated from then on whatever it held before.
    pub fn to_session(&self, session: &mut Session) -> (r: Result<(), UserError>)
        ensures
            r is Ok,
            final(session)@ == SessionView::Authenticated(self.id@),
    {
        *session = Session::Authenticated(self.id);
        Ok(())
    }
}

impl User {
    /// A second registration under a name fails with `NameAlreadyInUse`
    /// whatever the password, and leaves exactly one row of that name.
    pub proof fn lemma_register_twice(
        db: DatabaseView,
        user_name: Seq<char>,
        first_hash: Seq<char>,
        second_hash: Seq<char>,
    )
        requires
            db.wf(),
            db.insert_user_result(user_name, first_hash) is Ok,
        ensures
            db.insert_user(user_name, first_hash).insert_user_result(user_name, second_hash)
                is Err,
            UserErrorView::from_database(
                db.insert_user(user_name, first_hash).insert_user_result(
                    user_name,
                    second_hash,
                )->Err_0,
            ) == UserErrorView::NameAlreadyInUse,
            db.insert_user(user_name, first_hash).insert_user(user_name, second_hash)
                == db.insert_user(user_name, first_hash),
            db.insert_user(user_name, first_hash).count_user_name(user_name) == 1,
    {
        db.lemma_insert_user_twice(user_name, first_hash, second_hash);
    }

    /// A login succeeds if and only if a user of that name is stored and the
    /// password verifies against the stored hash; it then returns that user.
    /// Every other login is a `BadLogin`, but for the one whose stored hash
    /// cannot be compared at all.
    pub proof fn lemma_login(
        db: DatabaseView,
        user_name: Seq<char>,
        password: Seq<char>,
    )
        ensures
            Self::login_outcome(db, user_name, password) is Welcome <==> db.has_user_name(
                user_name,
            ) && bcrypt_verify(password, db.user_named(user_name).password_hash) == Some(true),
            Self::login_outcome(db, user_name, password) is Welcome ==> Self::login_outcome(
                db,
                user_name,
                password,
            ) == LoginOutcome::Welcome(db.user_named(user_name)),
            Self::login_outcome(db, user_name, password) is HashFailure <==> db.has_user_name(
                user_name,
            ) && bcrypt_verify(password, db.user_named(user_name).password_hash) is None,
    {
    }

    /// After a registration, a login under the same name with a password
    /// that verifies against the stored hash returns the new user, with the
    /// identifier that the registration gave out.
    pub proof fn lemma_login_after_register(
        db: DatabaseView,
        user_name: Seq<char>,
        password_hash: Seq<char>,
        password: Seq<char>,
    )
        requires
            db.wf(),
            db.insert_user_result(user_name, password_hash) is Ok,
        ensures
            bcrypt_verify(password, password_hash) == Some(true) ==> Self::login_outcome(
                db.insert_user(user_name, password_hash),
                user_name,
                password,
            ) == LoginOutcome::Welcome(db.insert_user_result(user_name, password_hash)->Ok_0),
            bcrypt_verify(password, password_hash) == Some(false) ==> Self::login_outcome(
                db.insert_user(user_name, password_hash),
                user_name,
                password,
            ) == LoginOutcome::BadLogin,
    {
        let after = db.insert_user(user_name, password_hash);
        db.lemma_insert_user_keeps_wf(user_name, password_hash);
        assert(after.user_at_is_named(db.users.len() as int, user_name));
        after.lemma_user_named(db.users.len() as int, user_name);
    }
}

} // verus!
