//! The client handle: statement names, the per-connection caches, and the
//! requests that its operations send.
use vstd::prelude::*;
use vstd::string::*;
use vstd::utf8::encode_utf8;
use crate::config::Config;
use crate::connect::ConnectFuture;
use crate::error::Error;
use crate::frontend::{
    body_fits, cstr_ok, describe_msg, encode_describe, encode_parse, encode_sync, parse_body,
    parse_msg, query_msg, simple_query_request, sync_msg,
};
use crate::copy_in::CopyInFuture;
use crate::copy_out::CopyOutStream;
use crate::execute::ExecuteFuture;
use crate::frontend::{cancel_request_msg, encode_cancel_request, encode_execute, execute_msg};
use crate::portal::Portal;
use crate::query::QueryStream;
use crate::simple_query::SimpleQueryStream;
use crate::transaction::TransactionFuture;
use crate::statement::Statement;
use crate::types::{Type, TypeCache};
use crate::rows::{decimal, digit_char};
use crate::Oid;

verus! {

/// The server-side name with the prefix `prefix` and the number `id`.
pub open spec fn object_name(prefix: Seq<char>, id: u64) -> Seq<char> {
    prefix + decimal(id as nat)
}

/// The one-character string of the decimal digit `d`.
fn digit_str(d: u64) -> (r: &'static str)
    requires
        d < 10,
    ensures
        r@ == seq![digit_char(d as nat)],
{
    proof {
        reveal_strlit("0");
        reveal_strlit("1");
        reveal_strlit("2");
        reveal_strlit("3");
        reveal_strlit("4");
        reveal_strlit("5");
        reveal_strlit("6");
        reveal_strlit("7");
        reveal_strlit("8");
        reveal_strlit("9");
    }
    if d == 0 {
        "0"
    } else if d == 1 {
        "1"
    } else if d == 2 {
        "2"
    } else if d == 3 {
        "3"
    } else if d == 4 {
        "4"
    } else if d == 5 {
        "5"
    } else if d == 6 {
        "6"
    } else if d == 7 {
        "7"
    } else if d == 8 {
        "8"
    } else {
        "9"
    }
}

/// Appends the decimal digits of `n` to `s`.
fn push_decimal(s: &mut String, n: u64)
    ensures
        final(s)@ == old(s)@ + decimal(n as nat),
    decreases n,
{
    if n >= 10 {
        push_decimal(s, n / 10);
    }
    s.append(digit_str(n % 10));
    assert(final(s)@ =~= old(s)@ + decimal(n as nat));
}

/// A `Parse` + `Describe` + `Sync` request for a new statement.
pub struct PrepareRequest {
    /// The name given to the statement.
    pub name: String,
    /// The messages to send.
    pub messages: Vec<u8>,
}

/// The OIDs of `types`, in order.
pub open spec fn oids_of(types: Seq<Type>) -> Seq<Oid> {
    types.map_values(|t: Type| t.inner.oid)
}

/// The messages that prepare `query` as the statement `name`.
pub open spec fn prepare_msgs(name: Seq<u8>, query: Seq<u8>, types: Seq<Oid>) -> Seq<u8> {
    parse_msg(name, query, types) + describe_msg(0x53, name) + sync_msg()
}

/// Whether those messages can be encoded.
pub open spec fn prepare_ok(name: Seq<u8>, query: Seq<u8>, types: Seq<Oid>) -> bool {
    &&& cstr_ok(name)
    &&& cstr_ok(query)
    &&& types.len() <= u16::MAX
    &&& body_fits(parse_body(name, query, types).len())
    &&& body_fits(name.len() + 2)
}

/// The messages that run a bound statement through the unnamed portal: the
/// caller's `Bind`, then `Execute` of all rows, then `Sync`.
pub open spec fn bound_exec_msgs(bind: Seq<u8>) -> Seq<u8> {
    bind + execute_msg(Seq::empty(), 0) + sync_msg()
}

/// The messages that fetch at most `max_rows` rows (0: all) of the portal
/// `portal`.
pub open spec fn portal_exec_msgs(portal: Seq<u8>, max_rows: i32) -> Seq<u8> {
    execute_msg(portal, max_rows) + sync_msg()
}

/// `Execute` of all rows of the unnamed portal, then `Sync`.
pub(crate) fn unnamed_execute_sync() -> (r: Vec<u8>)
    ensures
        r@ == execute_msg(Seq::empty(), 0) + sync_msg(),
{
    proof {
        reveal_strlit("");
        assert(""@ =~= Seq::<char>::empty());
        assert(encode_utf8(Seq::<char>::empty()) =~= Seq::<u8>::empty());
    }
    match encode_execute("", 0) {
        Some(mut messages) => {
            let mut sync = encode_sync();
            messages.append(&mut sync);
            messages
        },
        None => Vec::new(),
    }
}

/// Whether `a` and `b` hold the same backend key and the same caches.
pub open spec fn same_caches(a: Client, b: Client) -> bool {
    &&& a.process_id == b.process_id
    &&& a.secret_key == b.secret_key
    &&& a.types == b.types
    &&& a.typeinfo == b.typeinfo
    &&& a.typeinfo_enum == b.typeinfo_enum
    &&& a.typeinfo_composite == b.typeinfo_composite
}

/// The handle through which requests reach one connection. It holds the
/// caches that live as long as the connection. Statement names are numbered
/// by the caller from one counter for the whole process, so that no two
/// statements of the process share a name.
pub struct Client {
    /// Whether the connection has gone; every later request fails.
    pub closed: bool,
    /// The backend's process id, for cancellation.
    pub process_id: i32,
    /// The backend's secret key, for cancellation.
    pub secret_key: i32,
    /// Resolved types, by OID.
    pub types: TypeCache,
    /// The prepared type-lookup catalog statement.
    pub typeinfo: Option<Statement>,
    /// The prepared enum-label catalog statement.
    pub typeinfo_enum: Option<Statement>,
    /// The prepared composite-field catalog statement.
    pub typeinfo_composite: Option<Statement>,
}

impl Client {
    pub fn new(process_id: i32, secret_key: i32) -> (r: Client)
        ensures
            !r.closed,
            r.process_id == process_id,
            r.secret_key == secret_key,
            forall|o: Oid| r.types.lookup(o) is None,
            r.typeinfo is None,
            r.typeinfo_enum is None,
            r.typeinfo_composite is None,
    {
        Client {
            closed: false,
            process_id,
            secret_key,
            types: TypeCache::new(),
            typeinfo: None,
            typeinfo_enum: None,
            typeinfo_composite: None,
        }
    }

    /// Default connection settings, to be filled in and connected with.
    pub fn configure() -> (r: Config)
        ensures
            r.host@.len() == 0,
            r.port@.len() == 0,
            r.ssl_mode == crate::config::SslMode::Prefer,
            r.target_session_attrs == crate::config::TargetSessionAttrs::Any,
            r.user is None,
            r.dbname is None,
            r.connect_timeout is None,
            r.keepalives,
    {
        Config::new()
    }

    /// A connect with the settings `config`.
    pub fn connect(config: Config) -> (r: ConnectFuture)
        ensures
            r.state == (crate::connect::Connect::Start { settings: Ok(config) }),
    {
        ConnectFuture::new(Ok(config))
    }

    pub fn is_closed(&self) -> (r: bool)
        ensures
            r == self.closed,
    {
        self.closed
    }

    /// Records that the connection has gone.
    pub fn mark_closed(&mut self)
        ensures
            final(self).closed,
            same_caches(*final(self), *old(self)),
    {
        self.closed = true;
    }

    /// The name with the prefix `prefix` (`s` for statements, `p` for
    /// portals) and the number `id`, which the caller takes from the
    /// process-wide counter.
    pub fn next_name(prefix: &str, id: u64) -> (r: String)
        ensures
            r@ == object_name(prefix@, id),
    {
        let mut name = String::from_str(prefix);
        push_decimal(&mut name, id);
        name
    }

    /// The request that prepares `query` as the statement numbered `id`,
    /// with no declared parameter types.
    pub fn prepare(&self, query: &str, id: u64) -> (r: Result<PrepareRequest, Error>)
        ensures
            self.closed ==> r matches Err(Error::Closed),
            !self.closed ==> ({
                let name = encode_utf8(object_name("s"@, id));
                &&& r.is_ok() == prepare_ok(name, query.spec_bytes(), Seq::empty())
                &&& r matches Ok(p) ==> p.name@ == object_name("s"@, id) && p.messages@
                    == prepare_msgs(name, query.spec_bytes(), Seq::empty())
                &&& r matches Err(e) ==> e is Encode
            }),
    {
        let v: Vec<Type> = Vec::new();
        let r = self.prepare_typed(query, v.as_slice(), id);
        assert(oids_of(v@) =~= Seq::<Oid>::empty());
        r
    }

    /// The request that prepares `query` as the statement numbered `id`,
    /// with the parameter types `types` declared.
    pub fn prepare_typed(&self, query: &str, types: &[Type], id: u64) -> (r: Result<
        PrepareRequest,
        Error,
    >)
        ensures
            self.closed ==> r matches Err(Error::Closed),
            !self.closed ==> ({
                let name = encode_utf8(object_name("s"@, id));
                &&& r.is_ok() == prepare_ok(name, query.spec_bytes(), oids_of(types@))
                &&& r matches Ok(p) ==> p.name@ == object_name("s"@, id) && p.messages@
                    == prepare_msgs(name, query.spec_bytes(), oids_of(types@))
                &&& r matches Err(e) ==> e is Encode
            }),
    {
        if self.closed {
            return Err(Error::Closed);
        }
        let name = Client::next_name("s", id);
        let mut oids: Vec<Oid> = Vec::new();
        let mut i: usize = 0;
        while i < types.len()
            invariant
                i <= types@.len(),
                oids@ == oids_of(types@.subrange(0, i as int)),
            decreases types@.len() - i,
        {
            oids.push(types[i].oid());
            assert(oids_of(types@.subrange(0, i + 1)) =~= oids_of(types@.subrange(0, i as int)).push(
                types@[i as int].inner.oid,
            ));
            i = i + 1;
        }
        assert(types@.subrange(0, types@.len() as int) =~= types@);
        let parse = encode_parse(name.as_str(), query, &oids);
        let describe = encode_describe(0x53, name.as_str());
        match (parse, describe) {
            (Some(mut messages), Some(mut d)) => {
                let mut sync = encode_sync();
                messages.append(&mut d);
                messages.append(&mut sync);
                Ok(PrepareRequest { name, messages })
            },
            _ => Err(Error::Encode),
        }
    }

    /// A simple-protocol query of `query`, which may hold several statements.
    pub fn simple_query(&self, query: &str) -> (r: Result<SimpleQueryStream, Error>)
        ensures
            self.closed ==> r matches Err(Error::Closed),
            !self.closed ==> r.is_ok() == (cstr_ok(query.spec_bytes()) && body_fits(
                query.spec_bytes().len() + 1,
            )),
            r matches Ok(s) ==> s.state matches crate::simple_query::State::Start { request }
                && request@ == query_msg(query.spec_bytes()),
            !self.closed ==> (r matches Err(e) ==> e is Encode),
    {
        if self.closed {
            return Err(Error::Closed);
        }
        match simple_query_request(query) {
            Ok(request) => Ok(SimpleQueryStream::new(request)),
            Err(e) => Err(e),
        }
    }

    /// Executes a statement whose parameters the caller has bound with `bind`
    /// (a `Bind` message into the unnamed portal); the future finishes with
    /// the number of rows affected.
    pub fn execute(&self, statement: &Statement, bind: Vec<u8>) -> (r: Result<ExecuteFuture, Error>)
        ensures
            self.closed ==> r matches Err(Error::Closed),
            !self.closed ==> (r matches Ok(f) && f.state matches crate::execute::Execute::Start {
                request,
                statement: s,
            } && request@ == bound_exec_msgs(bind@) && s == *statement),
    {
        if self.closed {
            return Err(Error::Closed);
        }
        let mut request = bind;
        let mut rest = unnamed_execute_sync();
        request.append(&mut rest);
        Ok(ExecuteFuture::new(request, statement.share()))
    }

    /// Queries with a statement whose parameters the caller has bound with
    /// `bind`; the stream yields the rows.
    pub fn query(&self, statement: &Statement, bind: Vec<u8>) -> (r: Result<QueryStream, Error>)
        ensures
            self.closed ==> r matches Err(Error::Closed),
            !self.closed ==> (r matches Ok(q) && q.state matches crate::query::Query::Start {
                request,
            } && request@ == bound_exec_msgs(bind@) && q.statement == *statement),
    {
        if self.closed {
            return Err(Error::Closed);
        }
        let mut request = bind;
        let mut rest = unnamed_execute_sync();
        request.append(&mut rest);
        Ok(QueryStream::new(request, statement.share()))
    }

    /// Fetches at most `max_rows` rows (0: all) of a portal.
    pub fn query_portal(&self, portal: &Portal, max_rows: i32) -> (r: Result<QueryStream, Error>)
        ensures
            self.closed ==> r matches Err(Error::Closed),
            !self.closed ==> r.is_ok() == (cstr_ok(encode_utf8(portal.inner.name@)) && body_fits(
                encode_utf8(portal.inner.name@).len() + 5,
            )),
            r matches Ok(q) ==> q.state matches crate::query::Query::Start { request }
                && request@ == portal_exec_msgs(encode_utf8(portal.inner.name@), max_rows)
                && q.statement == portal.inner.statement,
            !self.closed ==> (r matches Err(e) ==> e is Encode),
    {
        if self.closed {
            return Err(Error::Closed);
        }
        match encode_execute(portal.name(), max_rows) {
            Some(mut request) => {
                let mut sync = encode_sync();
                request.append(&mut sync);
                Ok(QueryStream::new(request, portal.statement().share()))
            },
            None => Err(Error::Encode),
        }
    }

    /// Runs `COPY ... FROM STDIN` through a statement whose parameters the
    /// caller has bound with `bind`.
    pub fn copy_in(&self, bind: Vec<u8>) -> (r: Result<CopyInFuture, Error>)
        ensures
            self.closed ==> r matches Err(Error::Closed),
            !self.closed ==> (r matches Ok(f) && f.state matches crate::copy_in::CopyIn::Start {
                request,
            } && request@ == bound_exec_msgs(bind@)),
    {
        if self.closed {
            return Err(Error::Closed);
        }
        let mut request = bind;
        let mut rest = unnamed_execute_sync();
        request.append(&mut rest);
        Ok(CopyInFuture::new(request))
    }

    /// Runs `COPY ... TO STDOUT` through a statement whose parameters the
    /// caller has bound with `bind`.
    pub fn copy_out(&self, bind: Vec<u8>) -> (r: Result<CopyOutStream, Error>)
        ensures
            self.closed ==> r matches Err(Error::Closed),
            !self.closed ==> (r matches Ok(s) && s.state matches crate::copy_out::CopyOut::Start {
                request,
            } && request@ == bound_exec_msgs(bind@)),
    {
        if self.closed {
            return Err(Error::Closed);
        }
        let mut request = bind;
        let mut rest = unnamed_execute_sync();
        request.append(&mut rest);
        Ok(CopyOutStream::new(request))
    }

    /// The request that cancels the query running on this client's backend.
    /// It is sent over a new connection to the same host, never over this one.
    pub fn cancel_request(&self) -> (r: Vec<u8>)
        ensures
            r@ == cancel_request_msg(self.process_id, self.secret_key),
    {
        encode_cancel_request(self.process_id, self.secret_key)
    }

    /// A transaction around a body that the caller runs: `BEGIN`, then
    /// `COMMIT` or `ROLLBACK` as the body ends.
    pub fn transaction<T, E>(&self) -> (r: TransactionFuture<T, E>)
        ensures
            r.state is Start,
    {
        TransactionFuture::new()
    }

    /// The cached descriptor for `oid`.
    pub fn cached_type(&self, oid: Oid) -> (r: Option<Type>)
        ensures
            r == self.types.lookup(oid),
    {
        self.types.get(oid)
    }

    /// Records a resolved type; an OID already cached keeps its descriptor.
    pub fn cache_type(&mut self, ty: Type)
        ensures
            final(self).types.lookup(ty.spec_oid()) == (match old(self).types.lookup(ty.spec_oid()) {
                Some(t) => Some(t),
                None => Some(ty),
            }),
            forall|o: Oid| o != ty.spec_oid() ==> #[trigger] final(self).types.lookup(o) == old(self).types.lookup(o),
            final(self).closed == old(self).closed,
            final(self).typeinfo == old(self).typeinfo,
            final(self).typeinfo_enum == old(self).typeinfo_enum,
            final(self).typeinfo_composite == old(self).typeinfo_composite,
    {
        self.types.insert(ty);
    }
}

} // verus!
