//! Backend messages as the request state machines see them, and the shape of
//! one step of a state machine.
use vstd::prelude::*;
use crate::error::{DbError, Error};
use crate::Oid;

verus! {

/// A column as a row description gives it.
#[derive(Debug, Clone)]
pub struct FieldDescription {
    pub name: String,
    pub type_oid: Oid,
}

/// A decoded backend message, routed to the request it belongs to.
#[derive(Debug, Clone)]
pub enum BackendMessage {
    ParseComplete,
    BindComplete,
    CloseComplete,
    NoData,
    EmptyQueryResponse,
    PortalSuspended,
    CopyInResponse,
    CopyOutResponse,
    CopyDone,
    /// The fields of one row; `None` is SQL `NULL`.
    DataRow(Vec<Option<Vec<u8>>>),
    /// The command tag, such as `INSERT 0 3`.
    CommandComplete(String),
    ErrorResponse(DbError),
    RowDescription(Vec<FieldDescription>),
    ParameterDescription(Vec<Oid>),
    /// The transaction status byte.
    ReadyForQuery(u8),
    CopyData(Vec<u8>),
    /// A server parameter changed.
    ParameterStatus { name: String, value: String },
    /// The backend's process id and cancellation key.
    BackendKeyData { process_id: i32, secret_key: i32 },
    NoticeResponse(DbError),
    NotificationResponse { process_id: i32, channel: String, payload: String },
}

/// What a state machine reports after consuming one input.
#[derive(Debug, Clone)]
pub enum Async<T> {
    /// Finished with a value.
    Ready(T),
    /// More input is needed.
    NotReady,
}

/// One step of a state machine: progress, or a failure that ends it.
pub type Poll<T> = Result<Async<T>, Error>;

/// The failure that a message reports for its request, if it is an
/// `ErrorResponse`.
pub open spec fn error_of(m: Option<BackendMessage>) -> Option<Error> {
    match m {
        Some(BackendMessage::ErrorResponse(e)) => Some(Error::Db(e)),
        _ => None,
    }
}

/// What a message does to a request that has failed with `e` and reads on
/// to the end of its response: `ReadyForQuery` completes it with `e`, the
/// channel closing ends it as closed, and every other message is passed over.
pub open spec fn drain_on<T>(e: Error, m: Option<BackendMessage>) -> Poll<T> {
    match m {
        Some(BackendMessage::ReadyForQuery(_)) => Err(e),
        Some(_) => Ok(Async::NotReady),
        None => Err(Error::Closed),
    }
}

/// Consumes a message of a request that has failed with `e`. The error is
/// handed back while the request still reads on.
pub fn drain<T>(e: Error, m: Option<BackendMessage>) -> (r: (Poll<T>, Option<Error>))
    ensures
        r.0 == drain_on::<T>(e, m),
        r.0 matches Ok(Async::NotReady) ==> r.1 == Some(e),
        !(r.0 matches Ok(Async::NotReady)) ==> r.1 is None,
{
    match m {
        Some(BackendMessage::ReadyForQuery(_)) => (Err(e), None),
        Some(_) => (Ok(Async::NotReady), Some(e)),
        None => (Err(Error::Closed), None),
    }
}

} // verus!
