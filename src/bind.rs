//! Binding a statement's parameters into a named portal.
use vstd::prelude::*;
use crate::error::Error;
use crate::message::{drain, drain_on, Async, BackendMessage, Poll};
use crate::portal::Portal;
use crate::statement::Statement;

verus! {

/// The states of a bind.
pub enum Bind {
    /// The request is built and not yet sent.
    Start { request: Vec<u8>, name: String, statement: Statement },
    /// The request is in flight; `BindComplete` is awaited.
    ReadBindComplete { name: String, statement: Statement },
    /// The server reported `error`; the rest of the response is read up to
    /// `ReadyForQuery`, where the error is reported.
    Failing { error: Error },
    /// The bind finished or failed.
    Done,
}

/// A bind of a statement into the portal `name`, driven one backend message
/// at a time. It finishes with the portal.
pub struct BindFuture {
    pub state: Bind,
}

impl BindFuture {
    pub fn new(request: Vec<u8>, name: String, statement: Statement) -> (r: BindFuture)
        ensures
            r.state == (Bind::Start { request, name, statement }),
    {
        BindFuture { state: Bind::Start { request, name, statement } }
    }

    /// Hands out the request to send and starts waiting for `BindComplete`;
    /// `None` where it was already handed out.
    pub fn start(&mut self) -> (r: Option<Vec<u8>>)
        ensures
            match old(self).state {
                Bind::Start { request, name, statement } => r == Some(request)
                    && final(self).state == (Bind::ReadBindComplete { name, statement }),
                _ => r is None && final(self).state == old(self).state,
            },
    {
        let mut st = Bind::Done;
        std::mem::swap(&mut self.state, &mut st);
        match st {
            Bind::Start { request, name, statement } => {
                self.state = Bind::ReadBindComplete { name, statement };
                Some(request)
            },
            other => {
                self.state = other;
                None
            },
        }
    }

    /// Consumes the next message of the response, or its end (`None`):
    /// `BindComplete` yields the portal; a server error is kept and reported
    /// once the response has been read to `ReadyForQuery`; any other message
    /// is unexpected, and the end means the connection closed.
    pub fn poll_message(&mut self, m: Option<BackendMessage>) -> (r: Poll<Portal>)
        requires
            old(self).state is ReadBindComplete || old(self).state is Failing,
        ensures
            old(self).state is Failing ==> r == drain_on::<Portal>(old(self).state->Failing_error, m)
                && (r matches Ok(Async::NotReady) ==> final(self).state == old(self).state) && (!(
            r matches Ok(Async::NotReady)) ==> final(self).state is Done),
            old(self).state is ReadBindComplete ==> match m {
                Some(BackendMessage::BindComplete) => (r matches Ok(Async::Ready(p)) && p.inner.name
                    == old(self).state->ReadBindComplete_name && p.inner.statement == old(
                    self).state->ReadBindComplete_statement) && final(self).state is Done,
                Some(BackendMessage::ErrorResponse(e)) => r == Poll::<Portal>::Ok(Async::NotReady)
                    && final(self).state == (Bind::Failing { error: Error::Db(e) }),
                Some(_) => r == Poll::<Portal>::Err(Error::UnexpectedMessage) && final(self).state is Done,
                None => r == Poll::<Portal>::Err(Error::Closed) && final(self).state is Done,
            },
    {
        let mut st = Bind::Done;
        std::mem::swap(&mut self.state, &mut st);
        match st {
            Bind::ReadBindComplete { name, statement } => match m {
                Some(BackendMessage::BindComplete) => Ok(Async::Ready(Portal::new(name, statement))),
                Some(BackendMessage::ErrorResponse(e)) => {
                    self.state = Bind::Failing { error: Error::Db(e) };
                    Ok(Async::NotReady)
                },
                Some(_) => Err(Error::UnexpectedMessage),
                None => Err(Error::Closed),
            },
            Bind::Failing { error } => {
                let (p, keep) = drain(error, m);
                if let Some(e) = keep {
                    self.state = Bind::Failing { error: e };
                }
                p
            },
            _ => Err(Error::UnexpectedMessage),
        }
    }
}

} // verus!
