//! The frontend messages that the client writes, as byte sequences. The
//! encoding itself is postgres-protocol's; the spec functions here state the
//! frames that it writes.
use vstd::prelude::*;
use vstd::string::*;
use crate::Oid;
use crate::error::Error;
use vstd::utf8::encode_utf8;

verus! {

/// The four big-endian bytes of `n`, for `0 <= n < 2^32`.
pub open spec fn be32(n: nat) -> Seq<u8> {
    seq![
        ((n / 0x1000000) % 0x100) as u8,
        ((n / 0x10000) % 0x100) as u8,
        ((n / 0x100) % 0x100) as u8,
        (n % 0x100) as u8,
    ]
}

/// The two big-endian bytes of `n`, for `0 <= n < 2^16`.
pub open spec fn be16(n: nat) -> Seq<u8> {
    seq![((n / 0x100) % 0x100) as u8, (n % 0x100) as u8]
}

/// A nul-terminated string.
pub open spec fn cstr(s: Seq<u8>) -> Seq<u8> {
    s.push(0u8)
}

/// Whether `s` can be written as a nul-terminated string.
pub open spec fn cstr_ok(s: Seq<u8>) -> bool {
    !s.contains(0u8)
}

/// A message frame: the tag byte, then the length of what follows including
/// the length field itself, then the body.
pub open spec fn frame(tag: u8, body: Seq<u8>) -> Seq<u8> {
    seq![tag] + be32(body.len() + 4) + body
}

/// Whether a body of `len` bytes fits the 32-bit signed length field.
pub open spec fn body_fits(len: nat) -> bool {
    len + 4 <= i32::MAX
}

/// The object identifiers of `ts`, each as four big-endian bytes.
pub open spec fn oids_be(ts: Seq<Oid>) -> Seq<u8>
    decreases ts.len(),
{
    if ts.len() == 0 {
        Seq::empty()
    } else {
        oids_be(ts.drop_last()) + be32(ts.last() as nat)
    }
}

/// `Query`: a simple-protocol query string.
pub open spec fn query_msg(q: Seq<u8>) -> Seq<u8> {
    frame(0x51, cstr(q))
}

/// `Sync`: the end of an extended-protocol exchange.
pub open spec fn sync_msg() -> Seq<u8> {
    frame(0x53, Seq::empty())
}

/// The body of a `Close` or a `Describe`: the kind of object, then its name.
pub open spec fn target_body(variant: u8, name: Seq<u8>) -> Seq<u8> {
    seq![variant] + cstr(name)
}

/// `Close` of the statement (`S`) or portal (`P`) named `name`.
pub open spec fn close_msg(variant: u8, name: Seq<u8>) -> Seq<u8> {
    frame(0x43, target_body(variant, name))
}

/// `Describe` of the statement (`S`) or portal (`P`) named `name`.
pub open spec fn describe_msg(variant: u8, name: Seq<u8>) -> Seq<u8> {
    frame(0x44, target_body(variant, name))
}

/// The body of a `Parse`.
pub open spec fn parse_body(name: Seq<u8>, query: Seq<u8>, types: Seq<Oid>) -> Seq<u8> {
    cstr(name) + cstr(query) + be16(types.len()) + oids_be(types)
}

/// `Parse` of `query` into the statement `name` with parameter types `types`.
pub open spec fn parse_msg(name: Seq<u8>, query: Seq<u8>, types: Seq<Oid>) -> Seq<u8> {
    frame(0x50, parse_body(name, query, types))
}

/// `Execute` of the portal `portal`, returning at most `max_rows` rows (0: all).
pub open spec fn execute_msg(portal: Seq<u8>, max_rows: i32) -> Seq<u8> {
    frame(0x45, cstr(portal) + be32(max_rows as u32 as nat))
}

/// `CopyData` carrying `data`.
pub open spec fn copy_data_msg(data: Seq<u8>) -> Seq<u8> {
    frame(0x64, data)
}

/// `CopyDone`: the end of the data sent in copy-in mode.
pub open spec fn copy_done_msg() -> Seq<u8> {
    frame(0x63, Seq::empty())
}

/// `CopyFail` with the error message `message`.
pub open spec fn copy_fail_msg(message: Seq<u8>) -> Seq<u8> {
    frame(0x66, cstr(message))
}

/// Relies on postgres_protocol::message::frontend::CopyData::new and
/// CopyData::write, which frame `data` and refuse data over the length field.
#[verifier::external_body]
pub(crate) fn encode_copy_data(data: &[u8]) -> (r: Option<Vec<u8>>)
    ensures
        r.is_some() == body_fits(data@.len()),
        r matches Some(b) ==> b@ == copy_data_msg(data@),
{
    let mut buf = bytes::BytesMut::new();
    match postgres_protocol::message::frontend::CopyData::new(data) {
        Ok(d) => {
            d.write(&mut buf);
            Some(buf.to_vec())
        },
        Err(_) => None,
    }
}

/// Relies on postgres_protocol::message::frontend::copy_done, which writes
/// the five-byte `CopyDone` frame.
#[verifier::external_body]
pub(crate) fn encode_copy_done() -> (r: Vec<u8>)
    ensures
        r@ == copy_done_msg(),
{
    let mut buf = bytes::BytesMut::new();
    postgres_protocol::message::frontend::copy_done(&mut buf);
    buf.to_vec()
}

/// Relies on postgres_protocol::message::frontend::copy_fail, which writes the
/// `CopyFail` frame and fails on an embedded nul or a body over the length field.
#[verifier::external_body]
pub(crate) fn encode_copy_fail(message: &str) -> (r: Option<Vec<u8>>)
    ensures
        r.is_some() == (cstr_ok(message.spec_bytes()) && body_fits(message.spec_bytes().len() + 1)),
        r matches Some(b) ==> b@ == copy_fail_msg(message.spec_bytes()),
{
    let mut buf = bytes::BytesMut::new();
    match postgres_protocol::message::frontend::copy_fail(message, &mut buf) {
        Ok(()) => Some(buf.to_vec()),
        Err(_) => None,
    }
}

/// `PasswordMessage` carrying `password`.
pub open spec fn password_msg(password: Seq<u8>) -> Seq<u8> {
    frame(0x70, cstr(password))
}

/// The key-value pairs of a startup message, each as two nul-terminated
/// strings.
pub open spec fn startup_pairs(ps: Seq<(Seq<u8>, Seq<u8>)>) -> Seq<u8>
    decreases ps.len(),
{
    if ps.len() == 0 {
        Seq::empty()
    } else {
        startup_pairs(ps.drop_last()) + cstr(ps.last().0) + cstr(ps.last().1)
    }
}

/// The body of a startup message: protocol version 3.0, the pairs, a nul.
pub open spec fn startup_body(ps: Seq<(Seq<u8>, Seq<u8>)>) -> Seq<u8> {
    be32(0x30000) + startup_pairs(ps) + seq![0u8]
}

/// The startup message, which has no tag byte.
pub open spec fn startup_msg(ps: Seq<(Seq<u8>, Seq<u8>)>) -> Seq<u8> {
    be32(startup_body(ps).len() + 4) + startup_body(ps)
}

/// Whether every key and value of `ps` can be written as a nul-terminated
/// string.
pub open spec fn pairs_ok(ps: Seq<(Seq<u8>, Seq<u8>)>) -> bool {
    forall|i: int| 0 <= i < ps.len() ==> cstr_ok(#[trigger] ps[i].0) && cstr_ok(ps[i].1)
}

/// The bytes of the keys and values of `ps`.
pub open spec fn pair_bytes(ps: Seq<(String, String)>) -> Seq<(Seq<u8>, Seq<u8>)> {
    ps.map_values(|p: (String, String)| (encode_utf8(p.0@), encode_utf8(p.1@)))
}

/// Relies on postgres_protocol::message::frontend::password_message, which
/// writes the `PasswordMessage` frame and fails on an embedded nul or a body
/// over the length field.
#[verifier::external_body]
pub(crate) fn encode_password(password: &[u8]) -> (r: Option<Vec<u8>>)
    ensures
        r.is_some() == (cstr_ok(password@) && body_fits(password@.len() + 1)),
        r matches Some(b) ==> b@ == password_msg(password@),
{
    let mut buf = bytes::BytesMut::new();
    match postgres_protocol::message::frontend::password_message(password, &mut buf) {
        Ok(()) => Some(buf.to_vec()),
        Err(_) => None,
    }
}

/// Relies on postgres_protocol::message::frontend::startup_message, which
/// writes the version, each key and value, and a final nul, and fails on an
/// embedded nul or a body over the length field.
#[verifier::external_body]
pub(crate) fn encode_startup(params: &Vec<(String, String)>) -> (r: Option<Vec<u8>>)
    ensures
        r.is_some() == (pairs_ok(pair_bytes(params@)) && body_fits(
            startup_body(pair_bytes(params@)).len(),
        )),
        r matches Some(b) ==> b@ == startup_msg(pair_bytes(params@)),
{
    let mut buf = bytes::BytesMut::new();
    let pairs = params.iter().map(|p| (p.0.as_str(), p.1.as_str()));
    match postgres_protocol::message::frontend::startup_message(pairs, &mut buf) {
        Ok(()) => Some(buf.to_vec()),
        Err(_) => None,
    }
}

/// `SSLRequest`: a startup-style frame with the TLS request code.
pub open spec fn ssl_request_msg() -> Seq<u8> {
    be32(8) + be32(80877103)
}

/// `CancelRequest` for the backend `process_id` with key `secret_key`.
pub open spec fn cancel_request_msg(process_id: i32, secret_key: i32) -> Seq<u8> {
    be32(16) + be32(80877102) + be32(process_id as u32 as nat) + be32(secret_key as u32 as nat)
}

/// `Terminate`: the client is closing the connection.
pub open spec fn terminate_msg() -> Seq<u8> {
    frame(0x58, Seq::empty())
}

/// Relies on postgres_protocol::message::frontend::ssl_request, which writes
/// the eight-byte `SSLRequest`.
#[verifier::external_body]
pub(crate) fn encode_ssl_request() -> (r: Vec<u8>)
    ensures
        r@ == ssl_request_msg(),
{
    let mut buf = bytes::BytesMut::new();
    postgres_protocol::message::frontend::ssl_request(&mut buf);
    buf.to_vec()
}

/// Relies on postgres_protocol::message::frontend::cancel_request, which
/// writes the sixteen-byte `CancelRequest`.
#[verifier::external_body]
pub(crate) fn encode_cancel_request(process_id: i32, secret_key: i32) -> (r: Vec<u8>)
    ensures
        r@ == cancel_request_msg(process_id, secret_key),
{
    let mut buf = bytes::BytesMut::new();
    postgres_protocol::message::frontend::cancel_request(process_id, secret_key, &mut buf);
    buf.to_vec()
}

/// Relies on postgres_protocol::message::frontend::terminate, which writes
/// the five-byte `Terminate` frame.
#[verifier::external_body]
pub(crate) fn encode_terminate() -> (r: Vec<u8>)
    ensures
        r@ == terminate_msg(),
{
    let mut buf = bytes::BytesMut::new();
    postgres_protocol::message::frontend::terminate(&mut buf);
    buf.to_vec()
}

/// Relies on postgres_protocol::message::frontend::query, which writes the
/// `Query` frame and fails on an embedded nul or a body over the length field.
#[verifier::external_body]
pub(crate) fn encode_query(q: &str) -> (r: Option<Vec<u8>>)
    ensures
        r.is_some() == (cstr_ok(q.spec_bytes()) && body_fits(q.spec_bytes().len() + 1)),
        r matches Some(b) ==> b@ == query_msg(q.spec_bytes()),
{
    let mut buf = bytes::BytesMut::new();
    match postgres_protocol::message::frontend::query(q, &mut buf) {
        Ok(()) => Some(buf.to_vec()),
        Err(_) => None,
    }
}

/// Relies on postgres_protocol::message::frontend::sync, which writes the
/// five-byte `Sync` frame.
#[verifier::external_body]
pub(crate) fn encode_sync() -> (r: Vec<u8>)
    ensures
        r@ == sync_msg(),
{
    let mut buf = bytes::BytesMut::new();
    postgres_protocol::message::frontend::sync(&mut buf);
    buf.to_vec()
}

/// Relies on postgres_protocol::message::frontend::close, which writes the
/// `Close` frame and fails on an embedded nul or a body over the length field.
#[verifier::external_body]
pub(crate) fn encode_close(variant: u8, name: &str) -> (r: Option<Vec<u8>>)
    ensures
        r.is_some() == (cstr_ok(name.spec_bytes()) && body_fits(name.spec_bytes().len() + 2)),
        r matches Some(b) ==> b@ == close_msg(variant, name.spec_bytes()),
{
    let mut buf = bytes::BytesMut::new();
    match postgres_protocol::message::frontend::close(variant, name, &mut buf) {
        Ok(()) => Some(buf.to_vec()),
        Err(_) => None,
    }
}

/// Relies on postgres_protocol::message::frontend::describe, which writes the
/// `Describe` frame and fails on an embedded nul or a body over the length field.
#[verifier::external_body]
pub(crate) fn encode_describe(variant: u8, name: &str) -> (r: Option<Vec<u8>>)
    ensures
        r.is_some() == (cstr_ok(name.spec_bytes()) && body_fits(name.spec_bytes().len() + 2)),
        r matches Some(b) ==> b@ == describe_msg(variant, name.spec_bytes()),
{
    let mut buf = bytes::BytesMut::new();
    match postgres_protocol::message::frontend::describe(variant, name, &mut buf) {
        Ok(()) => Some(buf.to_vec()),
        Err(_) => None,
    }
}

/// Relies on postgres_protocol::message::frontend::parse, which writes the
/// `Parse` frame (names, then a 16-bit count of parameter types, then each
/// type) and fails on an embedded nul, over 65535 types, or a body over the
/// length field.
#[verifier::external_body]
pub(crate) fn encode_parse(name: &str, query: &str, types: &Vec<Oid>) -> (r: Option<Vec<u8>>)
    ensures
        r.is_some() == (cstr_ok(name.spec_bytes()) && cstr_ok(query.spec_bytes()) && types@.len()
            <= u16::MAX && body_fits(parse_body(name.spec_bytes(), query.spec_bytes(), types@).len())),
        r matches Some(b) ==> b@ == parse_msg(name.spec_bytes(), query.spec_bytes(), types@),
{
    let mut buf = bytes::BytesMut::new();
    match postgres_protocol::message::frontend::parse(name, query, types.iter().copied(), &mut buf) {
        Ok(()) => Some(buf.to_vec()),
        Err(_) => None,
    }
}

/// Relies on postgres_protocol::message::frontend::execute, which writes the
/// `Execute` frame and fails on an embedded nul or a body over the length field.
#[verifier::external_body]
pub(crate) fn encode_execute(portal: &str, max_rows: i32) -> (r: Option<Vec<u8>>)
    ensures
        r.is_some() == (cstr_ok(portal.spec_bytes()) && body_fits(portal.spec_bytes().len() + 5)),
        r matches Some(b) ==> b@ == execute_msg(portal.spec_bytes(), max_rows),
{
    let mut buf = bytes::BytesMut::new();
    match postgres_protocol::message::frontend::execute(portal, max_rows, &mut buf) {
        Ok(()) => Some(buf.to_vec()),
        Err(_) => None,
    }
}

/// Whether a `Close` (or `Describe`) of `name` can be encoded.
pub open spec fn target_ok(name: Seq<u8>) -> bool {
    cstr_ok(name) && body_fits(name.len() + 2)
}

/// The request that closes the statement (`S`) or portal (`P`) named `name`:
/// a `Close` followed by a `Sync`.
pub fn close_request(variant: u8, name: &str) -> (r: Result<Vec<u8>, Error>)
    ensures
        r.is_ok() == target_ok(name.spec_bytes()),
        r matches Ok(b) ==> b@ == close_msg(variant, name.spec_bytes()) + sync_msg(),
        r matches Err(e) ==> e is Encode,
{
    match encode_close(variant, name) {
        Some(mut close) => {
            let mut sync = encode_sync();
            close.append(&mut sync);
            Ok(close)
        },
        None => Err(Error::Encode),
    }
}

/// The request of a simple-protocol query: one `Query` message.
pub fn simple_query_request(query: &str) -> (r: Result<Vec<u8>, Error>)
    ensures
        r.is_ok() == (cstr_ok(query.spec_bytes()) && body_fits(query.spec_bytes().len() + 1)),
        r matches Ok(b) ==> b@ == query_msg(query.spec_bytes()),
        r matches Err(e) ==> e is Encode,
{
    match encode_query(query) {
        Some(b) => Ok(b),
        None => Err(Error::Encode),
    }
}

} // verus!
