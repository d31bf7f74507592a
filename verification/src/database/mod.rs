//! What the backend keeps in its database, the statements it sends there, and
//! the errors it answers with.
use vstd::prelude::*;

pub mod statement;
pub mod users;
pub mod products;
pub mod tags;
pub mod stock;
pub mod migration;

verus! {

/// The five kinds of failure a request can end in.
pub enum ErrorKind {
    Constraint,
    Internal,
    Login,
    UserNotFound,
    Forbidden,
}

/// A failed request: its kind and the text sent back with it.
#[derive(Debug, Clone, PartialEq, Eq)]
pub enum MyError {
    /// The database refused the statement (a broken constraint, bad SQL, ...).
    ConstraintError(String),
    /// Anything else that went wrong on the server.
    InternalError(String),
    /// Wrong user name or password.
    LoginError(String),
    /// No user of that name.
    UserNotFoundError(String),
    /// The caller's role does not allow the operation.
    ForbiddenError(String),
}

impl View for MyError {
    type V = (ErrorKind, Seq<char>);

    open spec fn view(&self) -> (ErrorKind, Seq<char>) {
        match self {
            MyError::ConstraintError(m) => (ErrorKind::Constraint, m@),
            MyError::InternalError(m) => (ErrorKind::Internal, m@),
            MyError::LoginError(m) => (ErrorKind::Login, m@),
            MyError::UserNotFoundError(m) => (ErrorKind::UserNotFound, m@),
            MyError::ForbiddenError(m) => (ErrorKind::Forbidden, m@),
        }
    }
}

/// How a statement sent to the database failed.
#[derive(Debug, Clone, PartialEq, Eq)]
pub enum DbError {
    /// The database itself answered with an error; the text describes it.
    Database(String),
    /// The failure came from elsewhere: the connection, a missing row, decoding, ...
    Other,
}

/// How checking a token failed.
#[derive(Debug, Clone, PartialEq, Eq)]
pub enum TokenError {
    /// The signature does not match; the text is the one the token library gives.
    InvalidSignature(String),
    /// The token is malformed, or its claims are not a map of strings, or its MAC is wrong.
    Other,
}

/// An answer, text or failure, as plain values.
pub open spec fn answer_view(r: Result<String, MyError>) -> Result<Seq<char>, (ErrorKind, Seq<char>)> {
    match r {
        Ok(s) => Ok(s@),
        Err(e) => Err(e@),
    }
}

/// An answer without a value, as plain values.
pub open spec fn unit_view(r: Result<(), MyError>) -> Result<(), (ErrorKind, Seq<char>)> {
    match r {
        Ok(()) => Ok(()),
        Err(e) => Err(e@),
    }
}

/// The text of an internal error.
pub open spec fn internal_error_text() -> Seq<char> {
    "Internal error"@
}

/// The answer to a failed database statement: what the database reported
/// becomes a constraint error with its text, anything else an internal error.
pub open spec fn database_failure(e: DbError) -> (ErrorKind, Seq<char>) {
    match e {
        DbError::Database(m) => (ErrorKind::Constraint, m@),
        DbError::Other => (ErrorKind::Internal, internal_error_text()),
    }
}

impl MyError {
    /// The answer to a failed database statement (see `database_failure`).
    pub fn from_database_error(e: DbError) -> (r: MyError)
        ensures
            r@ == database_failure(e),
    {
        match e {
            DbError::Database(m) => MyError::ConstraintError(m),
            DbError::Other => MyError::InternalError(String::from_str("Internal error")),
        }
    }

    /// The answer to a token that could not be checked: a bad signature is
    /// forbidden with the token library's text, anything else an internal error.
    pub fn from_token_error(e: TokenError) -> (r: MyError)
        ensures
            match e {
                TokenError::InvalidSignature(m) => r@ == (ErrorKind::Forbidden, m@),
                TokenError::Other => r@ == (ErrorKind::Internal, internal_error_text()),
            },
    {
        match e {
            TokenError::InvalidSignature(m) => MyError::ForbiddenError(m),
            TokenError::Other => MyError::InternalError(String::from_str("Internal error")),
        }
    }
}

} // verus!
