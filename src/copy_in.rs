//! `COPY ... FROM STDIN`: streaming data to the server.
use vstd::prelude::*;
use vstd::string::*;
use crate::error::Error;
use crate::frontend::{
    body_fits, copy_data_msg, copy_done_msg, copy_fail_msg, cstr_ok, encode_copy_data,
    encode_copy_done, encode_copy_fail,
};
use crate::message::{drain, drain_on, error_of, Async, BackendMessage, Poll};
use crate::rows::{rows_from_tag, tag_rows};

verus! {

/// The states of a copy-in.
pub enum CopyIn {
    /// The request is built and not yet sent.
    Start { request: Vec<u8> },
    /// The request is in flight; `CopyInResponse` is awaited.
    ReadCopyInResponse,
    /// The server takes data.
    CopyIn,
    /// The data has ended; the command's outcome is awaited.
    ReadResponse,
    /// The copy failed with `error`; the rest of the response is read up to
    /// `ReadyForQuery`, where the error is reported.
    Failing { error: Error },
    Done,
}

/// What a message does to a copy-in awaiting `CopyInResponse`: `Ready`
/// means that the server now takes data; a server error is kept for the end.
pub open spec fn copy_in_response_on(m: Option<BackendMessage>) -> Poll<()> {
    match m {
        Some(BackendMessage::BindComplete) => Ok(Async::NotReady),
        Some(BackendMessage::CopyInResponse) => Ok(Async::Ready(())),
        Some(BackendMessage::ErrorResponse(_)) => Ok(Async::NotReady),
        Some(_) => Err(Error::UnexpectedMessage),
        None => Err(Error::Closed),
    }
}

/// What a message does to a copy-in whose data has ended: `Ready` carries
/// the number of rows copied; a server error is kept for the end.
pub open spec fn copy_in_done_on(m: Option<BackendMessage>) -> Poll<u64> {
    match m {
        Some(BackendMessage::CommandComplete(tag)) => Ok(Async::Ready(tag_rows(tag@))),
        Some(BackendMessage::ErrorResponse(_)) => Ok(Async::NotReady),
        Some(_) => Err(Error::UnexpectedMessage),
        None => Err(Error::Closed),
    }
}

/// Whether `next` follows `st` after the outcome `r` of `m`, where
/// `reading` is the state that reads on: a server error is kept until the
/// response ends.
pub open spec fn copy_in_next<T>(st: CopyIn, m: Option<BackendMessage>, r: Poll<T>, reading: CopyIn, next: CopyIn) -> bool {
    if st is Failing {
        if r matches Ok(Async::NotReady) { next == st } else { next is Done }
    } else if error_of(m) is Some {
        next == (CopyIn::Failing { error: error_of(m)->Some_0 })
    } else if r matches Ok(Async::NotReady) {
        next == reading
    } else if r matches Ok(Async::Ready(_)) {
        next == (if reading is ReadCopyInResponse { CopyIn::CopyIn } else { CopyIn::Done })
    } else {
        next is Done
    }
}

/// A copy-in, driven by the backend's messages and by the caller's source
/// of data. It finishes with the number of rows copied.
pub struct CopyInFuture {
    pub state: CopyIn,
}

impl CopyInFuture {
    pub fn new(request: Vec<u8>) -> (r: CopyInFuture)
        ensures
            r.state == (CopyIn::Start { request }),
    {
        CopyInFuture { state: CopyIn::Start { request } }
    }

    /// Hands out the request to send and starts waiting for `CopyInResponse`.
    pub fn start(&mut self) -> (r: Option<Vec<u8>>)
        ensures
            match old(self).state {
                CopyIn::Start { request } => r == Some(request) && final(self).state
                    is ReadCopyInResponse,
                _ => r is None && final(self).state == old(self).state,
            },
    {
        let mut st = CopyIn::Done;
        std::mem::swap(&mut self.state, &mut st);
        match st {
            CopyIn::Start { request } => {
                self.state = CopyIn::ReadCopyInResponse;
                Some(request)
            },
            other => {
                self.state = other;
                None
            },
        }
    }

    /// Consumes a message while `CopyInResponse` is awaited, or while a
    /// failure is read on to `ReadyForQuery`.
    pub fn poll_copy_in_response(&mut self, m: Option<BackendMessage>) -> (r: Poll<()>)
        requires
            old(self).state is ReadCopyInResponse || old(self).state is Failing,
        ensures
            r == (match old(self).state {
                CopyIn::Failing { error } => drain_on(error, m),
                _ => copy_in_response_on(m),
            }),
            copy_in_next(old(self).state, m, r, CopyIn::ReadCopyInResponse, final(self).state),
    {
        let mut st = CopyIn::Done;
        std::mem::swap(&mut self.state, &mut st);
        if let CopyIn::Failing { error } = st {
            let (p, keep) = drain(error, m);
            if let Some(e) = keep {
                self.state = CopyIn::Failing { error: e };
            }
            return p;
        }
        match m {
            Some(BackendMessage::BindComplete) => {
                self.state = CopyIn::ReadCopyInResponse;
                Ok(Async::NotReady)
            },
            Some(BackendMessage::CopyInResponse) => {
                self.state = CopyIn::CopyIn;
                Ok(Async::Ready(()))
            },
            Some(BackendMessage::ErrorResponse(e)) => {
                self.state = CopyIn::Failing { error: Error::Db(e) };
                Ok(Async::NotReady)
            },
            Some(_) => Err(Error::UnexpectedMessage),
            None => Err(Error::Closed),
        }
    }

    /// The `CopyData` message that carries a chunk of the source.
    pub fn chunk(&self, data: &[u8]) -> (r: Result<Vec<u8>, Error>)
        requires
            self.state is CopyIn,
        ensures
            r.is_ok() == body_fits(data@.len()),
            r matches Ok(b) ==> b@ == copy_data_msg(data@),
            r matches Err(e) ==> e is Encode,
    {
        match encode_copy_data(data) {
            Some(b) => Ok(b),
            None => Err(Error::Encode),
        }
    }

    /// Takes the end of the source and returns the message that ends the
    /// data. After a clean end it is `CopyDone`, and the command's outcome
    /// is awaited. After a failure it is `CopyFail` with the source's error
    /// message (or with no message where that one cannot be sent), and the
    /// copy fails with the source's error once the server's reply has been
    /// read to `ReadyForQuery`.
    pub fn source_finished(&mut self, end: Result<(), &str>) -> (r: Vec<u8>)
        requires
            old(self).state is CopyIn,
        ensures
            match end {
                Ok(()) => r@ == copy_done_msg() && final(self).state is ReadResponse,
                Err(msg) => (if cstr_ok(msg.spec_bytes()) && body_fits(msg.spec_bytes().len() + 1) {
                    r@ == copy_fail_msg(msg.spec_bytes())
                } else {
                    r@ == copy_fail_msg(Seq::empty())
                }) && (final(self).state matches CopyIn::Failing { error: Error::CopyInSource(s) }
                    && s@ == msg@),
            },
    {
        match end {
            Ok(()) => {
                self.state = CopyIn::ReadResponse;
                encode_copy_done()
            },
            Err(msg) => {
                self.state = CopyIn::Failing { error: Error::CopyInSource(String::from_str(msg)) };
                match encode_copy_fail(msg) {
                    Some(b) => b,
                    None => {
                        proof {
                            reveal_strlit("");
                            assert(""@ =~= Seq::<char>::empty());
                            assert(vstd::utf8::encode_utf8(Seq::<char>::empty()) =~= Seq::<u8>::empty());
                        }
                        match encode_copy_fail("") {
                            Some(b) => b,
                            None => Vec::new(),
                        }
                    },
                }
            },
        }
    }

    /// Consumes a message after the data has ended, or while a failure is
    /// read on to `ReadyForQuery`.
    pub fn poll_response(&mut self, m: Option<BackendMessage>) -> (r: Poll<u64>)
        requires
            old(self).state is ReadResponse || old(self).state is Failing,
        ensures
            r == (match old(self).state {
                CopyIn::Failing { error } => drain_on(error, m),
                _ => copy_in_done_on(m),
            }),
            copy_in_next(old(self).state, m, r, CopyIn::ReadResponse, final(self).state),
    {
        let mut st = CopyIn::Done;
        std::mem::swap(&mut self.state, &mut st);
        if let CopyIn::Failing { error } = st {
            let (p, keep) = drain(error, m);
            if let Some(e) = keep {
                self.state = CopyIn::Failing { error: e };
            }
            return p;
        }
        match m {
            Some(BackendMessage::CommandComplete(tag)) => Ok(Async::Ready(rows_from_tag(tag.as_str()))),
            Some(BackendMessage::ErrorResponse(e)) => {
                self.state = CopyIn::Failing { error: Error::Db(e) };
                Ok(Async::NotReady)
            },
            Some(_) => Err(Error::UnexpectedMessage),
            None => Err(Error::Closed),
        }
    }
}

} // verus!
