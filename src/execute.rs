//! Executing a bound statement and reading back its row count.
use vstd::prelude::*;
use crate::error::Error;
use crate::message::{drain, drain_on, error_of, Async, BackendMessage, Poll};
use crate::rows::{rows_from_tag, tag_rows};
use crate::statement::Statement;

verus! {

/// The states of an execution.
pub enum Execute {
    /// The request is built and not yet sent.
    Start { request: Vec<u8>, statement: Statement },
    /// The request is in flight; its response is being read.
    ReadResponse,
    /// The server reported `error`; the rest of the response is read up to
    /// `ReadyForQuery`.
    Failing { error: Error },
    /// The execution finished or failed.
    Done,
}

/// What one message of the response (`None`: the channel closed) does to an
/// execution that is reading its response. A server error is kept, and
/// reported once the response ends.
pub open spec fn execute_on(m: Option<BackendMessage>) -> Poll<u64> {
    match m {
        Some(BackendMessage::BindComplete) => Ok(Async::NotReady),
        Some(BackendMessage::DataRow(_)) => Ok(Async::NotReady),
        Some(BackendMessage::ErrorResponse(_)) => Ok(Async::NotReady),
        Some(BackendMessage::CommandComplete(tag)) => Ok(Async::Ready(tag_rows(tag@))),
        Some(BackendMessage::EmptyQueryResponse) => Ok(Async::Ready(0)),
        Some(_) => Err(Error::UnexpectedMessage),
        None => Err(Error::Closed),
    }
}

/// What one message does to an execution in the state `st`, which is
/// reading its response or failing.
pub open spec fn execute_step(st: Execute, m: Option<BackendMessage>) -> Poll<u64> {
    match st {
        Execute::Failing { error } => drain_on(error, m),
        _ => execute_on(m),
    }
}

/// The state that follows the outcome `r` of `m` in the state `st`.
pub open spec fn execute_next(st: Execute, m: Option<BackendMessage>, r: Poll<u64>, next: Execute) -> bool {
    if st is Failing {
        if r matches Ok(Async::NotReady) { next == st } else { next is Done }
    } else if error_of(m) is Some {
        next == (Execute::Failing { error: error_of(m)->Some_0 })
    } else if r matches Ok(Async::NotReady) {
        next is ReadResponse
    } else {
        next is Done
    }
}

/// An execution of a bound statement, driven one backend message at a time.
/// It finishes with the number of rows that the command reported.
pub struct ExecuteFuture {
    pub state: Execute,
}

impl ExecuteFuture {
    pub fn new(request: Vec<u8>, statement: Statement) -> (r: ExecuteFuture)
        ensures
            r.state == (Execute::Start { request, statement }),
    {
        ExecuteFuture { state: Execute::Start { request, statement } }
    }

    /// Hands out the request to send and starts reading the response; `None`
    /// where it was already handed out. The statement may go after this: its
    /// close queues up behind the execution.
    pub fn start(&mut self) -> (r: Option<Vec<u8>>)
        ensures
            match old(self).state {
                Execute::Start { request, .. } => r == Some(request) && final(self).state
                    is ReadResponse,
                _ => r is None && final(self).state == old(self).state,
            },
    {
        let mut st = Execute::Done;
        std::mem::swap(&mut self.state, &mut st);
        match st {
            Execute::Start { request, statement: _ } => {
                self.state = Execute::ReadResponse;
                Some(request)
            },
            other => {
                self.state = other;
                None
            },
        }
    }

    /// Consumes the next message of the response, or its end (`None`).
    pub fn poll_message(&mut self, m: Option<BackendMessage>) -> (r: Poll<u64>)
        requires
            old(self).state is ReadResponse || old(self).state is Failing,
        ensures
            r == execute_step(old(self).state, m),
            execute_next(old(self).state, m, r, final(self).state),
    {
        let mut st = Execute::Done;
        std::mem::swap(&mut self.state, &mut st);
        if let Execute::Failing { error } = st {
            let (p, keep) = drain(error, m);
            if let Some(e) = keep {
                self.state = Execute::Failing { error: e };
            }
            return p;
        }
        match m {
            Some(BackendMessage::BindComplete) => {
                self.state = Execute::ReadResponse;
                Ok(Async::NotReady)
            },
            Some(BackendMessage::DataRow(_)) => {
                self.state = Execute::ReadResponse;
                Ok(Async::NotReady)
            },
            Some(BackendMessage::ErrorResponse(e)) => {
                self.state = Execute::Failing { error: Error::Db(e) };
                Ok(Async::NotReady)
            },
            Some(BackendMessage::CommandComplete(tag)) => Ok(Async::Ready(rows_from_tag(tag.as_str()))),
            Some(BackendMessage::EmptyQueryResponse) => Ok(Async::Ready(0)),
            Some(_) => Err(Error::UnexpectedMessage),
            None => Err(Error::Closed),
        }
    }
}

} // verus!
