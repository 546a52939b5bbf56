//! Running a body inside `BEGIN` ... `COMMIT` / `ROLLBACK`.
use vstd::prelude::*;
use crate::error::Error;

verus! {

/// How a transaction failed: in its body, or in the client's own commands.
#[derive(Debug)]
pub enum TransactionError<E> {
    Body(E),
    Client(Error),
}

/// The states of a transaction.
pub enum Transaction<T, E> {
    /// Nothing has been sent.
    Start,
    /// `BEGIN` is in flight.
    Beginning,
    /// The body runs.
    Running,
    /// `COMMIT` or `ROLLBACK` is in flight; the body ended with `result`.
    Finishing { result: Result<T, E> },
    /// The transaction finished or failed.
    Done,
}

/// The command that ends a transaction whose body succeeded (`COMMIT`) or
/// failed (`ROLLBACK`).
pub open spec fn finish_command(body_ok: bool) -> Seq<char> {
    if body_ok {
        "COMMIT"@
    } else {
        "ROLLBACK"@
    }
}

/// The outcome of a transaction whose body ended with `body` and whose
/// closing command ended with `finish`: the body's error wins over the
/// closing command's.
pub open spec fn transaction_outcome<T, E>(body: Result<T, E>, finish: Result<(), Error>) -> Result<
    T,
    TransactionError<E>,
> {
    match body {
        Err(e) => Err(TransactionError::Body(e)),
        Ok(t) => match finish {
            Ok(()) => Ok(t),
            Err(c) => Err(TransactionError::Client(c)),
        },
    }
}

/// A transaction around a body that the caller runs, driven by the outcomes
/// of the commands it asks for.
pub struct TransactionFuture<T, E> {
    pub state: Transaction<T, E>,
}

impl<T, E> TransactionFuture<T, E> {
    pub fn new() -> (r: TransactionFuture<T, E>)
        ensures
            r.state is Start,
    {
        TransactionFuture { state: Transaction::Start }
    }

    /// The simple query that opens the transaction.
    pub fn start(&mut self) -> (r: &'static str)
        requires
            old(self).state is Start,
        ensures
            r@ == "BEGIN"@,
            final(self).state is Beginning,
    {
        self.state = Transaction::Beginning;
        "BEGIN"
    }

    /// Takes the outcome of `BEGIN`: on success the body may run.
    pub fn begun(&mut self, begin: Result<(), Error>) -> (r: Result<(), TransactionError<E>>)
        requires
            old(self).state is Beginning,
        ensures
            match begin {
                Ok(()) => r is Ok && final(self).state is Running,
                Err(e) => r == Result::<(), TransactionError<E>>::Err(TransactionError::Client(e))
                    && final(self).state is Done,
            },
    {
        match begin {
            Ok(()) => {
                self.state = Transaction::Running;
                Ok(())
            },
            Err(e) => {
                self.state = Transaction::Done;
                Err(TransactionError::Client(e))
            },
        }
    }

    /// Takes the body's outcome and returns the simple query that ends the
    /// transaction: `COMMIT` after success, `ROLLBACK` after failure.
    pub fn body_finished(&mut self, body: Result<T, E>) -> (r: &'static str)
        requires
            old(self).state is Running,
        ensures
            r@ == finish_command(body is Ok),
            final(self).state == (Transaction::Finishing { result: body }),
    {
        let ok = body.is_ok();
        self.state = Transaction::Finishing { result: body };
        if ok {
            "COMMIT"
        } else {
            "ROLLBACK"
        }
    }

    /// Takes the outcome of `COMMIT` or `ROLLBACK` and returns the outcome of
    /// the transaction.
    pub fn finished(&mut self, finish: Result<(), Error>) -> (r: Result<T, TransactionError<E>>)
        requires
            old(self).state is Finishing,
        ensures
            r == transaction_outcome(old(self).state->result, finish),
            final(self).state is Done,
    {
        let mut st = Transaction::Done;
        std::mem::swap(&mut self.state, &mut st);
        match st {
            Transaction::Finishing { result } => match result {
                Err(e) => Err(TransactionError::Body(e)),
                Ok(t) => match finish {
                    Ok(()) => Ok(t),
                    Err(c) => Err(TransactionError::Client(c)),
                },
            },
            _ => Err(TransactionError::Client(Error::UnexpectedMessage)),
        }
    }
}

/// A transaction issues `BEGIN`, then `COMMIT` when its body succeeds and
/// `ROLLBACK` when it fails; a body that succeeds is committed unless `COMMIT`
/// fails; and when the body fails, its error is the transaction's error even
/// where `ROLLBACK` fails as well.
pub proof fn lemma_transaction_wrapping<T, E>(body: Result<T, E>, finish: Result<(), Error>)
    ensures
        finish_command(body is Ok) == (if body is Ok { "COMMIT"@ } else { "ROLLBACK"@ }),
        body matches Err(e) ==> transaction_outcome(body, finish) == Result::<
            T,
            TransactionError<E>,
        >::Err(TransactionError::Body(e)),
        body matches Ok(t) ==> (finish is Ok ==> transaction_outcome(body, finish) == Result::<
            T,
            TransactionError<E>,
        >::Ok(t)),
        finish matches Err(c) ==> (body is Ok ==> transaction_outcome(body, finish) == Result::<
            T,
            TransactionError<E>,
        >::Err(TransactionError::Client(c))),
{
}

} // verus!
