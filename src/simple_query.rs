//! Simple-protocol queries: one `Query` message, any number of statements.
use vstd::prelude::*;
use crate::error::Error;
use crate::message::{drain, drain_on, error_of, Async, BackendMessage, FieldDescription, Poll};

verus! {

/// The fields of a data row; `None` is SQL `NULL`.
pub type Row = Vec<Option<Vec<u8>>>;

/// An item of a simple query's stream.
#[derive(Debug)]
pub enum SimpleQueryMessage {
    /// The start of a result set: the description of its columns.
    RowDescription(Vec<FieldDescription>),
    /// A data row of the current result set.
    Row(Row),
}

/// The states of a simple query.
pub enum State {
    /// The request is built and not yet sent.
    Start { request: Vec<u8> },
    /// The request is in flight; its response is being read.
    ReadResponse,
    /// The server reported `error`; the rest of the response is read up to
    /// `ReadyForQuery`, where the error is reported.
    Failing { error: Error },
    /// The response ended, or the query failed.
    Done,
}

/// What one message of the response (`None`: the channel closed) does to a
/// simple query that is reading its response: each row description and each
/// data row is yielded, the end of the response ends the stream, the end of
/// each statement passes, and a server error is kept for the end.
pub open spec fn simple_query_on(m: Option<BackendMessage>) -> Poll<Option<SimpleQueryMessage>> {
    match m {
        Some(BackendMessage::CommandComplete(_)) => Ok(Async::NotReady),
        Some(BackendMessage::RowDescription(f)) => Ok(
            Async::Ready(Some(SimpleQueryMessage::RowDescription(f))),
        ),
        Some(BackendMessage::EmptyQueryResponse) => Ok(Async::NotReady),
        Some(BackendMessage::DataRow(row)) => Ok(Async::Ready(Some(SimpleQueryMessage::Row(row)))),
        Some(BackendMessage::ErrorResponse(_)) => Ok(Async::NotReady),
        Some(BackendMessage::ReadyForQuery(_)) => Ok(Async::Ready(None)),
        Some(_) => Err(Error::UnexpectedMessage),
        None => Err(Error::Closed),
    }
}

/// What one message does to a simple query in the state `st`: an ended
/// stream keeps giving its end, a failing one reads on to `ReadyForQuery`.
pub open spec fn simple_query_step(st: State, m: Option<BackendMessage>) -> Poll<Option<SimpleQueryMessage>> {
    match st {
        State::Done => Ok(Async::Ready(None)),
        State::Failing { error } => drain_on(error, m),
        _ => simple_query_on(m),
    }
}

/// The state that follows the outcome `r` of `m` in the state `st`: a server
/// error is kept until the response ends.
pub open spec fn simple_query_next(
    st: State,
    m: Option<BackendMessage>,
    r: Poll<Option<SimpleQueryMessage>>,
    next: State,
) -> bool {
    if st is Done {
        next is Done
    } else if st is Failing {
        if r matches Ok(Async::NotReady) { next == st } else { next is Done }
    } else if error_of(m) is Some {
        next == (State::Failing { error: error_of(m)->Some_0 })
    } else if simple_query_continues(r) {
        next is ReadResponse
    } else {
        next is Done
    }
}

/// Whether the stream still reads after the outcome `r` of a message.
pub open spec fn simple_query_continues(r: Poll<Option<SimpleQueryMessage>>) -> bool {
    r matches Ok(Async::NotReady) || r matches Ok(Async::Ready(Some(_)))
}

/// The rows of a simple query, driven one backend message at a time.
pub struct SimpleQueryStream {
    pub state: State,
}

impl SimpleQueryStream {
    pub fn new(request: Vec<u8>) -> (r: SimpleQueryStream)
        ensures
            r.state == (State::Start { request }),
    {
        SimpleQueryStream { state: State::Start { request } }
    }

    /// Hands out the request to send and starts reading the response; `None`
    /// where it was already handed out.
    pub fn start(&mut self) -> (r: Option<Vec<u8>>)
        ensures
            match old(self).state {
                State::Start { request } => r == Some(request) && final(self).state is ReadResponse,
                _ => r is None && final(self).state == old(self).state,
            },
    {
        let mut st = State::Done;
        std::mem::swap(&mut self.state, &mut st);
        match st {
            State::Start { request } => {
                self.state = State::ReadResponse;
                Some(request)
            },
            other => {
                self.state = other;
                None
            },
        }
    }

    /// Whether the stream has ended.
    pub fn is_done(&self) -> (r: bool)
        ensures
            r == self.state is Done,
    {
        match self.state {
            State::Done => true,
            _ => false,
        }
    }

    /// Consumes the next message of the response, or its end (`None`).
    /// `Ready(Some(item))` yields a row description or a row, `Ready(None)`
    /// ends the stream. A server error is reported once the response has
    /// been read to `ReadyForQuery`. Once the stream has ended, every later
    /// poll gives `Ready(None)`.
    pub fn poll_message(&mut self, m: Option<BackendMessage>) -> (r: Poll<Option<SimpleQueryMessage>>)
        requires
            old(self).state is ReadResponse || old(self).state is Failing || old(self).state is Done,
        ensures
            r == simple_query_step(old(self).state, m),
            simple_query_next(old(self).state, m, r, final(self).state),
    {
        let mut st = State::Done;
        std::mem::swap(&mut self.state, &mut st);
        match st {
            State::Done => {
                return Ok(Async::Ready(None));
            },
            State::Failing { error } => {
                let (p, keep) = drain(error, m);
                if let Some(e) = keep {
                    self.state = State::Failing { error: e };
                }
                return p;
            },
            _ => {},
        }
        match m {
            Some(BackendMessage::CommandComplete(_)) => {
                self.state = State::ReadResponse;
                Ok(Async::NotReady)
            },
            Some(BackendMessage::RowDescription(f)) => {
                self.state = State::ReadResponse;
                Ok(Async::Ready(Some(SimpleQueryMessage::RowDescription(f))))
            },
            Some(BackendMessage::EmptyQueryResponse) => {
                self.state = State::ReadResponse;
                Ok(Async::NotReady)
            },
            Some(BackendMessage::DataRow(row)) => {
                self.state = State::ReadResponse;
                Ok(Async::Ready(Some(SimpleQueryMessage::Row(row))))
            },
            Some(BackendMessage::ErrorResponse(e)) => {
                self.state = State::Failing { error: Error::Db(e) };
                Ok(Async::NotReady)
            },
            Some(BackendMessage::ReadyForQuery(_)) => Ok(Async::Ready(None)),
            Some(_) => Err(Error::UnexpectedMessage),
            None => Err(Error::Closed),
        }
    }
}

} // verus!
