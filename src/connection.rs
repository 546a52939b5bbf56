//! The routing core of the connection task: which in-flight request each
//! backend message belongs to.
use vstd::prelude::*;
use vstd::string::*;
use std::collections::VecDeque;
use crate::error::{DbError, Error};
use crate::frontend::{encode_terminate, terminate_msg};
use crate::message::BackendMessage;

verus! {

/// Where a backend message goes.
pub enum Routed {
    /// To the response channel of the request `id`; `last` where the message
    /// is the `ReadyForQuery` that ends the request.
    Deliver { id: u64, message: BackendMessage, last: bool },
    /// Recorded as a server parameter.
    Parameter,
    /// To the notice sink.
    Notice(DbError),
    /// To the notification sink.
    Notification { process_id: i32, channel: String, payload: String },
}

/// How far a connection has got in shutting down.
#[derive(Debug, Clone, Copy, PartialEq, Eq, Structural)]
pub enum ConnectionState {
    Active,
    Terminating,
    Closing,
    Closed,
}

/// The in-flight requests of one connection, oldest first, and the server
/// parameters it has been told of. Every request that ever became in flight
/// is either completed, in order, or still pending.
pub struct Connection {
    pending: VecDeque<u64>,
    parameters: Vec<(String, String)>,
    state: ConnectionState,
    /// Every request id that became in flight, in order.
    enqueued: Ghost<Seq<u64>>,
    /// Every request id that completed, in order.
    completed: Ghost<Seq<u64>>,
}

/// The latest value given for the parameter `name` in `ps`.
pub open spec fn last_param(ps: Seq<(String, String)>, name: Seq<char>) -> Option<Seq<char>>
    decreases ps.len(),
{
    if ps.len() == 0 {
        None
    } else if ps.last().0@ == name {
        Some(ps.last().1@)
    } else {
        last_param(ps.drop_last(), name)
    }
}

/// Whether `c` may shut down cleanly: no more requests can arrive, none is
/// in flight and no bytes wait to be written.
pub open spec fn may_shut_down(c: Connection, queue_closed: bool, bytes_buffered: bool) -> bool {
    queue_closed && c.pending().len() == 0 && !bytes_buffered
}

/// Whether a message goes to the request at the head of the queue rather
/// than to the connection itself.
pub open spec fn for_request(m: BackendMessage) -> bool {
    !(m is ParameterStatus || m is NoticeResponse || m is NotificationResponse)
}

impl Connection {
    /// The requests in flight, oldest first.
    pub closed spec fn pending(&self) -> Seq<u64> {
        self.pending@
    }

    /// Every request that became in flight, in order.
    pub closed spec fn enqueued(&self) -> Seq<u64> {
        self.enqueued@
    }

    /// Every request that completed, in order.
    pub closed spec fn completed(&self) -> Seq<u64> {
        self.completed@
    }

    /// The server parameters reported so far, in order.
    pub closed spec fn param_list(&self) -> Seq<(String, String)> {
        self.parameters@
    }

    /// How far the connection has got in shutting down.
    pub closed spec fn status(&self) -> ConnectionState {
        self.state
    }

    /// The requests completed so far and those in flight make up, in order,
    /// every request that became in flight.
    pub closed spec fn wf(&self) -> bool {
        self.completed@ + self.pending@ == self.enqueued@
    }

    pub fn new() -> (r: Connection)
        ensures
            r.wf(),
            r.pending().len() == 0,
            r.enqueued().len() == 0,
            r.status() == ConnectionState::Active,
    {
        Connection {
            pending: VecDeque::new(),
            parameters: Vec::new(),
            state: ConnectionState::Active,
            enqueued: Ghost(Seq::empty()),
            completed: Ghost(Seq::empty()),
        }
    }

    /// The number of requests in flight.
    pub fn in_flight(&self) -> (r: usize)
        ensures
            r == self.pending().len(),
    {
        self.pending.len()
    }

    /// Makes the request `id` in flight, behind every earlier one.
    pub fn enqueue(&mut self, id: u64)
        requires
            old(self).wf(),
        ensures
            final(self).wf(),
            final(self).pending() == old(self).pending().push(id),
            final(self).enqueued() == old(self).enqueued().push(id),
            final(self).completed() == old(self).completed(),
            final(self).status() == old(self).status(),
    {
        self.pending.push_back(id);
        self.enqueued = Ghost(self.enqueued@.push(id));
        assert(self.completed@ + self.pending@ =~= self.enqueued@);
    }

    /// Routes one backend message. Parameter changes, notices and
    /// notifications stay with the connection; every other message goes to
    /// the oldest request in flight, and `ReadyForQuery` completes it. A
    /// message for no request is an error.
    pub fn route(&mut self, m: BackendMessage) -> (r: Result<Routed, Error>)
        requires
            old(self).wf(),
        ensures
            final(self).wf(),
            final(self).enqueued() == old(self).enqueued(),
            final(self).status() == old(self).status(),
            m matches BackendMessage::ParameterStatus { name, value } ==> final(self).param_list()
                == old(self).param_list().push((name, value)),
            !(m is ParameterStatus) ==> final(self).param_list() == old(self).param_list(),
            !for_request(m) ==> r.is_ok() && !(r->Ok_0 is Deliver) && final(self).pending() == old(
                self).pending() && final(self).completed() == old(self).completed(),
            for_request(m) && old(self).pending().len() == 0 ==> r == Result::<Routed, Error>::Err(
                Error::UnexpectedMessage) && final(self).pending() == old(self).pending()
                && final(self).completed() == old(self).completed(),
            for_request(m) && old(self).pending().len() > 0 ==> ({
                let head = old(self).pending()[0];
                let last = m is ReadyForQuery;
                &&& r == Result::<Routed, Error>::Ok(Routed::Deliver { id: head, message: m, last })
                &&& last ==> final(self).pending() == old(self).pending().drop_first()
                    && final(self).completed() == old(self).completed().push(head)
                &&& !last ==> final(self).pending() == old(self).pending() && final(
                    self).completed() == old(self).completed()
            }),
    {
        match m {
            BackendMessage::ParameterStatus { name, value } => {
                self.parameters.push((name, value));
                Ok(Routed::Parameter)
            },
            BackendMessage::NoticeResponse(e) => Ok(Routed::Notice(e)),
            BackendMessage::NotificationResponse { process_id, channel, payload } => Ok(
                Routed::Notification { process_id, channel, payload },
            ),
            m => {
                if self.pending.len() == 0 {
                    return Err(Error::UnexpectedMessage);
                }
                let head = self.pending[0];
                let last = match m {
                    BackendMessage::ReadyForQuery(_) => true,
                    _ => false,
                };
                if last {
                    let ghost before = self.pending@;
                    let _ = self.pending.pop_front();
                    self.completed = Ghost(self.completed@.push(head));
                    assert(before =~= seq![head] + self.pending@);
                    assert(self.completed@ + self.pending@ =~= self.enqueued@);
                }
                Ok(Routed::Deliver { id: head, message: m, last })
            },
        }
    }

    /// Ends the connection: every request still in flight is handed back,
    /// oldest first, for its caller to observe that the connection closed.
    pub fn close(&mut self) -> (r: Vec<u64>)
        requires
            old(self).wf(),
        ensures
            r@ == old(self).pending(),
            final(self).pending().len() == 0,
            final(self).status() == ConnectionState::Closed,
    {
        let mut r: Vec<u64> = Vec::new();
        while self.pending.len() > 0
            invariant
                r@ + self.pending@ == old(self).pending@,
            decreases self.pending@.len(),
        {
            let ghost before = self.pending@;
            match self.pending.pop_front() {
                Some(id) => {
                    r.push(id);
                    assert(before =~= seq![id] + self.pending@);
                    assert(r@ + self.pending@ =~= old(self).pending@);
                },
                None => {},
            }
        }
        assert(r@ =~= old(self).pending@);
        self.state = ConnectionState::Closed;
        r
    }

    /// Whether the connection may shut down cleanly: no more requests can
    /// arrive, none is in flight and no bytes wait to be written.
    pub fn can_shut_down(&self, queue_closed: bool, bytes_buffered: bool) -> (r: bool)
        ensures
            r == may_shut_down(*self, queue_closed, bytes_buffered),
    {
        queue_closed && self.pending.len() == 0 && !bytes_buffered
    }

    /// Starts a clean shutdown: returns the `Terminate` message to write.
    pub fn terminate(&mut self) -> (r: Vec<u8>)
        requires
            old(self).wf(),
        ensures
            r@ == terminate_msg(),
            final(self).wf(),
            final(self).pending() == old(self).pending(),
            final(self).enqueued() == old(self).enqueued(),
            final(self).completed() == old(self).completed(),
            final(self).param_list() == old(self).param_list(),
            final(self).status() == ConnectionState::Terminating,
    {
        self.state = ConnectionState::Terminating;
        encode_terminate()
    }

    /// The latest value that the server gave for the parameter `name`.
    pub fn parameter(&self, name: &str) -> (r: Option<String>)
        ensures
            r.is_some() == last_param(self.param_list(), name@).is_some(),
            r matches Some(v) ==> v@ == last_param(self.param_list(), name@)->Some_0,
    {
        let mut i = self.parameters.len();
        assert(self.parameters@.subrange(0, i as int) =~= self.parameters@);
        while i > 0
            invariant
                i <= self.parameters@.len(),
                last_param(self.parameters@, name@) == last_param(
                    self.parameters@.subrange(0, i as int),
                    name@,
                ),
            decreases i,
        {
            assert(self.parameters@.subrange(0, i as int).drop_last() =~= self.parameters@.subrange(
                0,
                i - 1,
            ));
            i = i - 1;
            if str_eq(self.parameters[i].0.as_str(), name) {
                return Some(self.parameters[i].1.clone());
            }
        }
        None
    }
}

fn str_eq(a: &str, b: &str) -> (r: bool)
    ensures
        r == (a@ == b@),
{
    let n = a.unicode_len();
    if n != b.unicode_len() {
        return false;
    }
    let mut i: usize = 0;
    while i < n
        invariant
            i <= n == a@.len() == b@.len(),
            a@.subrange(0, i as int) == b@.subrange(0, i as int),
        decreases n - i,
    {
        if a.get_char(i) != b.get_char(i) {
            return false;
        }
        assert(a@.subrange(0, i + 1) =~= a@.subrange(0, i as int).push(a@[i as int]));
        assert(b@.subrange(0, i + 1) =~= b@.subrange(0, i as int).push(b@[i as int]));
        i = i + 1;
    }
    assert(a@ =~= a@.subrange(0, n as int));
    assert(b@ =~= b@.subrange(0, n as int));
    true
}

/// Requests complete in the order in which they became in flight: the
/// completed ones are always the oldest ones, in order.
pub proof fn lemma_fifo_routing(c: Connection)
    requires
        c.wf(),
    ensures
        c.completed().len() <= c.enqueued().len(),
        c.completed() == c.enqueued().subrange(0, c.completed().len() as int),
        c.pending() == c.enqueued().subrange(c.completed().len() as int, c.enqueued().len() as int),
{
    assert(c.completed() =~= c.enqueued().subrange(0, c.completed().len() as int));
    assert(c.pending() =~= c.enqueued().subrange(c.completed().len() as int, c.enqueued().len() as int));
}

/// A request that became in flight and has not completed keeps the
/// connection from shutting down cleanly; a close queued when a statement or
/// portal is dropped is therefore written and answered before the
/// connection goes quiet.
pub proof fn lemma_in_flight_blocks_shutdown(c: Connection, id: u64)
    requires
        c.wf(),
        c.pending().contains(id),
    ensures
        c.pending().len() > 0,
        forall|queue_closed: bool, bytes_buffered: bool|
            !#[trigger] may_shut_down(c, queue_closed, bytes_buffered),
{
}

} // verus!
