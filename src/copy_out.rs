//! `COPY ... TO STDOUT`: streaming data from the server.
use vstd::prelude::*;
use crate::error::Error;
use crate::message::{drain, drain_on, error_of, Async, BackendMessage, Poll};

verus! {

/// The states of a copy-out.
pub enum CopyOut {
    /// The request is built and not yet sent.
    Start { request: Vec<u8> },
    /// The request is in flight; `CopyOutResponse` is awaited.
    ReadCopyOutResponse,
    /// The server sends data.
    CopyOut,
    /// The server reported `error`; the rest of the response is read up to
    /// `ReadyForQuery`, where the error is reported.
    Failing { error: Error },
    Done,
}

/// What a message does to a copy-out awaiting `CopyOutResponse`; a server
/// error is kept for the end of the response.
pub open spec fn copy_out_response_on(m: Option<BackendMessage>) -> Poll<Option<Vec<u8>>> {
    match m {
        Some(BackendMessage::BindComplete) => Ok(Async::NotReady),
        Some(BackendMessage::CopyOutResponse) => Ok(Async::NotReady),
        Some(BackendMessage::ErrorResponse(_)) => Ok(Async::NotReady),
        Some(_) => Err(Error::UnexpectedMessage),
        None => Err(Error::Closed),
    }
}

/// What a message does to a copy-out that is receiving data: each
/// `CopyData` payload is yielded and `CopyDone` ends the stream; a server
/// error is kept for the end of the response.
pub open spec fn copy_out_data_on(m: Option<BackendMessage>) -> Poll<Option<Vec<u8>>> {
    match m {
        Some(BackendMessage::CopyData(d)) => Ok(Async::Ready(Some(d))),
        Some(BackendMessage::CopyDone) => Ok(Async::Ready(None)),
        Some(BackendMessage::ErrorResponse(_)) => Ok(Async::NotReady),
        Some(_) => Err(Error::UnexpectedMessage),
        None => Err(Error::Closed),
    }
}

/// The data of a copy-out, driven one backend message at a time.
pub struct CopyOutStream {
    pub state: CopyOut,
}

impl CopyOutStream {
    pub fn new(request: Vec<u8>) -> (r: CopyOutStream)
        ensures
            r.state == (CopyOut::Start { request }),
    {
        CopyOutStream { state: CopyOut::Start { request } }
    }

    /// Hands out the request to send and starts waiting for `CopyOutResponse`.
    pub fn start(&mut self) -> (r: Option<Vec<u8>>)
        ensures
            match old(self).state {
                CopyOut::Start { request } => r == Some(request) && final(self).state
                    is ReadCopyOutResponse,
                _ => r is None && final(self).state == old(self).state,
            },
    {
        let mut st = CopyOut::Done;
        std::mem::swap(&mut self.state, &mut st);
        match st {
            CopyOut::Start { request } => {
                self.state = CopyOut::ReadCopyOutResponse;
                Some(request)
            },
            other => {
                self.state = other;
                None
            },
        }
    }

    /// Consumes the next message of the response. `Ready(Some(data))`
    /// yields a payload, `Ready(None)` ends the stream.
    pub fn poll_message(&mut self, m: Option<BackendMessage>) -> (r: Poll<Option<Vec<u8>>>)
        requires
            old(self).state is ReadCopyOutResponse || old(self).state is CopyOut || old(
                self).state is Failing,
        ensures
            old(self).state is Failing ==> r == drain_on::<Option<Vec<u8>>>(
                old(self).state->Failing_error,
                m,
            ) && (r matches Ok(Async::NotReady) ==> final(self).state == old(self).state) && (!(
            r matches Ok(Async::NotReady)) ==> final(self).state is Done),
            !(old(self).state is Failing) && error_of(m) is Some ==> r == Poll::<
                Option<Vec<u8>>,
            >::Ok(Async::NotReady) && final(self).state == (CopyOut::Failing {
                error: error_of(m)->Some_0,
            }),
            old(self).state is ReadCopyOutResponse && error_of(m) is None ==> r
                == copy_out_response_on(m) && (match m {
                Some(BackendMessage::CopyOutResponse) => final(self).state is CopyOut,
                Some(BackendMessage::BindComplete) => final(self).state is ReadCopyOutResponse,
                _ => final(self).state is Done,
            }),
            old(self).state is CopyOut && error_of(m) is None ==> r == copy_out_data_on(m) && (
            r matches Ok(Async::Ready(Some(_))) ==> final(self).state is CopyOut) && (!(r matches Ok(
                Async::Ready(Some(_)),
            )) ==> final(self).state is Done),
    {
        let mut st = CopyOut::Done;
        std::mem::swap(&mut self.state, &mut st);
        let receiving = match st {
            CopyOut::Failing { error } => {
                let (p, keep) = drain(error, m);
                if let Some(e) = keep {
                    self.state = CopyOut::Failing { error: e };
                }
                return p;
            },
            CopyOut::CopyOut => true,
            _ => false,
        };
        if let Some(BackendMessage::ErrorResponse(e)) = m {
            self.state = CopyOut::Failing { error: Error::Db(e) };
            return Ok(Async::NotReady);
        }
        if !receiving {
            match m {
                Some(BackendMessage::BindComplete) => {
                    self.state = CopyOut::ReadCopyOutResponse;
                    Ok(Async::NotReady)
                },
                Some(BackendMessage::CopyOutResponse) => {
                    self.state = CopyOut::CopyOut;
                    Ok(Async::NotReady)
                },
                Some(_) => Err(Error::UnexpectedMessage),
                None => Err(Error::Closed),
            }
        } else {
            match m {
                Some(BackendMessage::CopyData(d)) => {
                    self.state = CopyOut::CopyOut;
                    Ok(Async::Ready(Some(d)))
                },
                Some(BackendMessage::CopyDone) => Ok(Async::Ready(None)),
                Some(_) => Err(Error::UnexpectedMessage),
                None => Err(Error::Closed),
            }
        }
    }
}

} // verus!
