//! The error taxonomy of the client.
use vstd::prelude::*;

verus! {

/// The part of an `ErrorResponse` that the protocol logic inspects.
#[derive(Debug, Clone)]
pub struct DbError {
    /// The five-character SQLSTATE code.
    pub code: String,
    /// The primary human-readable message.
    pub message: String,
}

/// The kind of an I/O failure met while connecting.
#[derive(Debug, Clone, Copy, PartialEq, Eq, Structural)]
pub enum IoErrorKind {
    PermissionDenied,
    ConnectionRefused,
    TimedOut,
    Other,
}

/// Every way an operation of the client can fail.
#[derive(Debug, Clone)]
pub enum Error {
    /// The connection went away before or while the request was handled.
    Closed,
    /// A transport read, write or connect failed.
    Io(IoErrorKind),
    /// The TLS adapter failed.
    Tls,
    /// The server answered with an `ErrorResponse`.
    Db(DbError),
    /// A backend message body was malformed.
    Parse,
    /// A valid message arrived that is wrong for the current state.
    UnexpectedMessage,
    /// Encoding the parameter at this index failed.
    ToSql(usize),
    /// Decoding the column at this index failed.
    FromSql(usize),
    /// The requested column is not in the row.
    Column(String),
    /// The configuration is invalid.
    Config(String),
    /// A connect-phase failure, such as a read-only server, with its message.
    Connect(IoErrorKind, String),
    /// The server rejected authentication.
    Authentication,
    /// The source of a copy-in failed with this message; the copy was
    /// aborted with `CopyFail`.
    CopyInSource(String),
    /// A frontend message could not be encoded: a string held a nul byte or
    /// the message was too long for its length field.
    Encode,
}

/// SQLSTATE of an undefined table.
pub const UNDEFINED_TABLE: &'static str = "42P01";

/// SQLSTATE of an undefined column.
pub const UNDEFINED_COLUMN: &'static str = "42703";

/// Whether `e` is a server error carrying the SQLSTATE `code`.
pub open spec fn has_code(e: Error, code: Seq<char>) -> bool {
    match e {
        Error::Db(db) => db.code@ == code,
        _ => false,
    }
}

/// Tells whether `e` is a server error carrying the SQLSTATE `code`.
pub fn error_has_code(e: &Error, code: &str) -> (r: bool)
    ensures
        r == has_code(*e, code@),
{
    match e {
        Error::Db(db) => {
            let expected = String::from_str(code);
            db.code == expected
        },
        _ => false,
    }
}

} // verus!
