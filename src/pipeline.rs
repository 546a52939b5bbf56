//! Executions pipelined on one connection: each backend message is routed
//! to the oldest request in flight and fed to that request's execution.
use vstd::prelude::*;
use crate::connection::{for_request, Connection, Routed};
use crate::error::Error;
use crate::execute::{execute_step, Execute, ExecuteFuture};
use crate::message::{Async, BackendMessage, Poll};

verus! {

/// The executions in flight on one connection, each under the id of its
/// request.
pub struct Pipeline {
    connection: Connection,
    executions: Vec<(u64, ExecuteFuture)>,
}

impl Pipeline {
    /// The connection's routing state.
    pub closed spec fn conn(&self) -> Connection {
        self.connection
    }

    /// The ids of the executions still reading their response.
    pub closed spec fn running(&self) -> Seq<u64> {
        self.executions@.map_values(|e: (u64, ExecuteFuture)| e.0)
    }

    /// The states of the executions still reading their response, in the
    /// order of `running`.
    pub closed spec fn states(&self) -> Seq<Execute> {
        self.executions@.map_values(|e: (u64, ExecuteFuture)| e.1.state)
    }

    /// The connection's routing invariant holds, and every stored execution
    /// is reading its response, or reading on after a server error.
    pub closed spec fn wf(&self) -> bool {
        &&& self.connection.wf()
        &&& forall|i: int|
            0 <= i < self.executions@.len() ==> ((#[trigger] self.executions@[i]).1.state is ReadResponse
                || self.executions@[i].1.state is Failing)
    }

    pub fn new() -> (r: Pipeline)
        ensures
            r.wf(),
            r.running().len() == 0,
            r.conn().pending().len() == 0,
            r.conn().enqueued().len() == 0,
    {
        let r = Pipeline { connection: Connection::new(), executions: Vec::new() };
        assert(r.running() =~= Seq::<u64>::empty());
        r
    }

    /// Puts the execution `f` in flight as request `id`, behind every
    /// earlier request, and returns the request to write.
    pub fn submit(&mut self, id: u64, f: ExecuteFuture) -> (r: Vec<u8>)
        requires
            old(self).wf(),
            f.state is Start,
        ensures
            final(self).wf(),
            r@ == f.state->request@,
            final(self).conn().pending() == old(self).conn().pending().push(id),
            final(self).conn().enqueued() == old(self).conn().enqueued().push(id),
            final(self).conn().completed() == old(self).conn().completed(),
            final(self).running() == old(self).running().push(id),
    {
        let mut f = f;
        let request = match f.start() {
            Some(request) => request,
            None => Vec::new(),
        };
        self.connection.enqueue(id);
        let ghost before = self.executions@;
        self.executions.push((id, f));
        assert(self.running() =~= before.map_values(|e: (u64, ExecuteFuture)| e.0).push(id));
        assert forall|i: int| 0 <= i < self.executions@.len() implies ((
        #[trigger] self.executions@[i]).1.state is ReadResponse
            || self.executions@[i].1.state is Failing) by {
            if i < before.len() {
                assert(self.executions@[i] == before[i]);
            }
        }
        request
    }

    /// Routes one backend message. A message for a request goes to the
    /// oldest request in flight, all earlier ones having completed, and, where
    /// that request's execution is still reading, is fed to it: the outcome is
    /// returned with the request's id. An execution that finishes or fails
    /// leaves the pipeline; later messages of its request are discarded.
    pub fn on_message(&mut self, m: BackendMessage) -> (r: Result<Option<(u64, Poll<u64>)>, Error>)
        requires
            old(self).wf(),
        ensures
            final(self).wf(),
            final(self).conn().enqueued() == old(self).conn().enqueued(),
            !for_request(m) ==> r == Result::<Option<(u64, Poll<u64>)>, Error>::Ok(None)
                && final(self).running() == old(self).running(),
            for_request(m) && old(self).conn().pending().len() == 0 ==> r == Result::<
                Option<(u64, Poll<u64>)>,
                Error,
            >::Err(Error::UnexpectedMessage),
            for_request(m) && old(self).conn().pending().len() > 0 ==> ({
                let head = old(self).conn().pending()[0];
                let k = old(self).conn().completed().len();
                &&& old(self).conn().enqueued().subrange(0, k as int) == old(
                    self,
                ).conn().completed()
                &&& old(self).conn().enqueued()[k as int] == head
                &&& r matches Ok(o)
                &&& (o is Some <==> old(self).running().contains(head))
                &&& o matches Some((id, p)) ==> id == head && exists|i: int|
                    0 <= i < old(self).running().len() && old(self).running()[i] == head && (forall|
                        j: int,
                    | 0 <= j < i ==> old(self).running()[j] != head) && p == execute_step(
                        #[trigger] old(self).states()[i],
                        Some(m),
                    )
                &&& o is None ==> final(self).running() == old(self).running()
                &&& o matches Some((_, p)) ==> (p matches Ok(Async::NotReady) ==> final(
                    self).running() == old(self).running())
                &&& o matches Some((_, p)) ==> (!(p matches Ok(Async::NotReady)) ==> final(
                    self).running().len() + 1 == old(self).running().len())
                &&& m is ReadyForQuery ==> final(self).conn().completed() == old(
                    self,
                ).conn().completed().push(head)
            }),
    {
        proof {
            crate::connection::lemma_fifo_routing(self.connection);
        }
        let routed = self.connection.route(m);
        match routed {
            Err(e) => Err(e),
            Ok(Routed::Deliver { id, message, last: _ }) => match self.find(id) {
                None => Ok(None),
                Some(i) => {
                    let ghost before = self.executions@;
                    let (eid, mut f) = self.executions.remove(i);
                    assert(before[i as int].1.state is ReadResponse || before[i as int].1.state is Failing);
                    let p = f.poll_message(Some(message));
                    assert(old(self).states()[i as int] == before[i as int].1.state);
                    let keep = match &p {
                        Ok(Async::NotReady) => true,
                        _ => false,
                    };
                    if keep {
                        self.executions.insert(i, (eid, f));
                        assert(self.running() =~= old(self).running());
                        assert forall|j: int| 0 <= j < self.executions@.len() implies ((
                        #[trigger] self.executions@[j]).1.state is ReadResponse
                            || self.executions@[j].1.state is Failing) by {
                            if j != i {
                                assert(self.executions@[j] == before[j]);
                            }
                        }
                    } else {
                        assert(self.running().len() + 1 == before.len());
                        assert forall|j: int| 0 <= j < self.executions@.len() implies ((
                        #[trigger] self.executions@[j]).1.state is ReadResponse
                            || self.executions@[j].1.state is Failing) by {
                            if j < i {
                                assert(self.executions@[j] == before[j]);
                            } else {
                                assert(self.executions@[j] == before[j + 1]);
                            }
                        }
                    }
                    Ok(Some((id, p)))
                },
            },
            Ok(_) => Ok(None),
        }
    }

    /// The position of the execution of request `id`, if it is running.
    fn find(&self, id: u64) -> (r: Option<usize>)
        ensures
            r is Some <==> self.running().contains(id),
            r matches Some(i) ==> i < self.executions@.len() && self.executions@[i as int].0 == id
                && forall|j: int| 0 <= j < i ==> self.executions@[j].0 != id,
    {
        let n = self.executions.len();
        let mut i: usize = 0;
        while i < n
            invariant
                n == self.executions@.len(),
                i <= n,
                forall|j: int| 0 <= j < i ==> self.executions@[j].0 != id,
            decreases n - i,
        {
            if self.executions[i].0 == id {
                assert(self.running()[i as int] == id);
                return Some(i);
            }
            i = i + 1;
        }
        assert(!self.running().contains(id)) by {
            if self.running().contains(id) {
                let j = choose|j: int| 0 <= j < self.running().len() && self.running()[j] == id;
                assert(self.executions@[j].0 == id);
            }
        }
        None
    }
}

} // verus!
