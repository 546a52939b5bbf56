//! Bulk execution: one statement run once per item, without waiting for
//! each outcome.
use vstd::prelude::*;
use crate::client::{bound_exec_msgs, unnamed_execute_sync};
use crate::idle::IdleState;
use crate::statement::Statement;

verus! {

/// A sink that runs `statement` once per item. Each item arrives as the
/// `Bind` of its parameters; its request is sent with no response channel,
/// guarded so that the connection stays busy until it completes.
pub struct ExecuteSink {
    pub statement: Statement,
    pub idle: IdleState,
}

impl ExecuteSink {
    pub fn new(statement: Statement) -> (r: ExecuteSink)
        ensures
            r.statement == statement,
            r.idle.count == 0,
    {
        ExecuteSink { statement, idle: IdleState::new() }
    }

    /// The request for one item: its `Bind`, then `Execute` of all rows of
    /// the unnamed portal, then `Sync`. The item's guard is taken.
    pub fn start_send(&mut self, bind: Vec<u8>) -> (r: Vec<u8>)
        requires
            old(self).idle.count < u64::MAX,
        ensures
            r@ == bound_exec_msgs(bind@),
            final(self).idle.count == old(self).idle.count + 1,
            final(self).statement == old(self).statement,
    {
        let mut request = bind;
        let mut rest = unnamed_execute_sync();
        request.append(&mut rest);
        self.idle.guard();
        request
    }

    /// Takes the completion of one item's request.
    pub fn completed(&mut self)
        requires
            old(self).idle.count > 0,
        ensures
            final(self).idle.count == old(self).idle.count - 1,
            final(self).statement == old(self).statement,
    {
        self.idle.release();
    }

    /// Whether every item's request has completed.
    pub fn is_flushed(&self) -> (r: bool)
        ensures
            r == (self.idle.count == 0),
    {
        self.idle.is_idle()
    }
}

} // verus!
