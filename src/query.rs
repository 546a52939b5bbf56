//! Queries through the extended protocol: the rows of a bound statement or
//! of a portal.
use vstd::prelude::*;
use crate::error::Error;
use crate::message::{drain, drain_on, error_of, Async, BackendMessage, Poll};
use crate::simple_query::Row;
use crate::statement::Statement;

verus! {

/// The states of a query.
pub enum Query {
    /// The request is built and not yet sent.
    Start { request: Vec<u8> },
    /// The request is in flight; its response is being read.
    ReadResponse,
    /// The server reported `error`; the rest of the response is read up to
    /// `ReadyForQuery`.
    Failing { error: Error },
    Done,
}

/// What one message of the response (`None`: the channel closed) does to a
/// query that is reading its response: each data row is yielded, and the
/// `ReadyForQuery` that closes the request ends the stream. A server error
/// is reported when the response ends.
pub open spec fn query_on(m: Option<BackendMessage>) -> Poll<Option<Row>> {
    match m {
        Some(BackendMessage::BindComplete) => Ok(Async::NotReady),
        Some(BackendMessage::CommandComplete(_)) => Ok(Async::NotReady),
        Some(BackendMessage::EmptyQueryResponse) => Ok(Async::NotReady),
        Some(BackendMessage::PortalSuspended) => Ok(Async::NotReady),
        Some(BackendMessage::DataRow(row)) => Ok(Async::Ready(Some(row))),
        Some(BackendMessage::ReadyForQuery(_)) => Ok(Async::Ready(None)),
        Some(BackendMessage::ErrorResponse(_)) => Ok(Async::NotReady),
        Some(_) => Err(Error::UnexpectedMessage),
        None => Err(Error::Closed),
    }
}

/// What one message does to a query in the state `st`, which is reading
/// its response or failing.
pub open spec fn query_step(st: Query, m: Option<BackendMessage>) -> Poll<Option<Row>> {
    match st {
        Query::Failing { error } => drain_on(error, m),
        _ => query_on(m),
    }
}

/// The state that follows the outcome `r` of `m` in the state `st`: a server
/// error is kept until the response ends.
pub open spec fn query_next(st: Query, m: Option<BackendMessage>, r: Poll<Option<Row>>, next: Query) -> bool {
    if st is Failing {
        if r matches Ok(Async::NotReady) { next == st } else { next is Done }
    } else if error_of(m) is Some {
        next == (Query::Failing { error: error_of(m)->Some_0 })
    } else if r matches Ok(Async::NotReady) || r matches Ok(Async::Ready(Some(_))) {
        next is ReadResponse
    } else {
        next is Done
    }
}

/// The rows of a query, driven one backend message at a time.
pub struct QueryStream {
    pub state: Query,
    /// The statement whose columns the rows have.
    pub statement: Statement,
}

impl QueryStream {
    pub fn new(request: Vec<u8>, statement: Statement) -> (r: QueryStream)
        ensures
            r.state == (Query::Start { request }),
            r.statement == statement,
    {
        QueryStream { state: Query::Start { request }, statement }
    }

    /// Hands out the request to send and starts reading the response.
    pub fn start(&mut self) -> (r: Option<Vec<u8>>)
        ensures
            match old(self).state {
                Query::Start { request } => r == Some(request) && final(self).state is ReadResponse,
                _ => r is None && final(self).state == old(self).state,
            },
    {
        let mut st = Query::Done;
        std::mem::swap(&mut self.state, &mut st);
        match st {
            Query::Start { request } => {
                self.state = Query::ReadResponse;
                Some(request)
            },
            other => {
                self.state = other;
                None
            },
        }
    }

    /// Consumes the next message of the response. `Ready(Some(row))` yields
    /// a row, `Ready(None)` ends the stream.
    pub fn poll_message(&mut self, m: Option<BackendMessage>) -> (r: Poll<Option<Row>>)
        requires
            old(self).state is ReadResponse || old(self).state is Failing,
        ensures
            r == query_step(old(self).state, m),
            query_next(old(self).state, m, r, final(self).state),
            final(self).statement == old(self).statement,
    {
        let mut st = Query::Done;
        std::mem::swap(&mut self.state, &mut st);
        if let Query::Failing { error } = st {
            let (p, keep) = drain(error, m);
            if let Some(e) = keep {
                self.state = Query::Failing { error: e };
            }
            return p;
        }
        match m {
            Some(BackendMessage::BindComplete) => {
                self.state = Query::ReadResponse;
                Ok(Async::NotReady)
            },
            Some(BackendMessage::CommandComplete(_)) => {
                self.state = Query::ReadResponse;
                Ok(Async::NotReady)
            },
            Some(BackendMessage::EmptyQueryResponse) => {
                self.state = Query::ReadResponse;
                Ok(Async::NotReady)
            },
            Some(BackendMessage::PortalSuspended) => {
                self.state = Query::ReadResponse;
                Ok(Async::NotReady)
            },
            Some(BackendMessage::DataRow(row)) => {
                self.state = Query::ReadResponse;
                Ok(Async::Ready(Some(row)))
            },
            Some(BackendMessage::ReadyForQuery(_)) => Ok(Async::Ready(None)),
            Some(BackendMessage::ErrorResponse(e)) => {
                self.state = Query::Failing { error: Error::Db(e) };
                Ok(Async::NotReady)
            },
            Some(_) => Err(Error::UnexpectedMessage),
            None => Err(Error::Closed),
        }
    }
}

} // verus!
