//! Reading the binary-format fields of catalog rows.
use vstd::prelude::*;
use vstd::utf8::{decode_utf8, valid_utf8};
use crate::error::Error;
use crate::simple_query::Row;
use crate::Oid;

verus! {

/// The big-endian value of four bytes.
pub open spec fn be_u32_value(b: Seq<u8>) -> int {
    b[0] as int * 0x1000000 + b[1] as int * 0x10000 + b[2] as int * 0x100 + b[3] as int
}

/// The field `idx` of `row` read as an `oid`: four big-endian bytes. A missing
/// column or a `NULL` is an unexpected message; another width fails to decode.
pub open spec fn oid_field(row: Seq<Option<Vec<u8>>>, idx: int) -> Result<Oid, Error> {
    if idx >= row.len() {
        Err(Error::UnexpectedMessage)
    } else {
        match row[idx] {
            Some(b) => if b@.len() == 4 {
                Ok(be_u32_value(b@) as Oid)
            } else {
                Err(Error::FromSql(idx as usize))
            },
            None => Err(Error::UnexpectedMessage),
        }
    }
}

/// The field `idx` of `row` read as a nullable `oid`.
pub open spec fn opt_oid_field(row: Seq<Option<Vec<u8>>>, idx: int) -> Result<Option<Oid>, Error> {
    if idx >= row.len() {
        Err(Error::UnexpectedMessage)
    } else {
        match row[idx] {
            Some(b) => if b@.len() == 4 {
                Ok(Some(be_u32_value(b@) as Oid))
            } else {
                Err(Error::FromSql(idx as usize))
            },
            None => Ok(None),
        }
    }
}

/// The field `idx` of `row` read as a `"char"`: one byte.
pub open spec fn char_field(row: Seq<Option<Vec<u8>>>, idx: int) -> Result<i8, Error> {
    if idx >= row.len() {
        Err(Error::UnexpectedMessage)
    } else {
        match row[idx] {
            Some(b) => if b@.len() == 1 {
                Ok(b@[0] as i8)
            } else {
                Err(Error::FromSql(idx as usize))
            },
            None => Err(Error::UnexpectedMessage),
        }
    }
}

/// The field `idx` of `row` read as text: valid UTF-8.
pub open spec fn text_field(row: Seq<Option<Vec<u8>>>, idx: int) -> Result<Seq<char>, Error> {
    if idx >= row.len() {
        Err(Error::UnexpectedMessage)
    } else {
        match row[idx] {
            Some(b) => if valid_utf8(b@) {
                Ok(decode_utf8(b@))
            } else {
                Err(Error::FromSql(idx as usize))
            },
            None => Err(Error::UnexpectedMessage),
        }
    }
}

/// Relies on `String::from_utf8`: it accepts exactly the valid UTF-8
/// sequences, and the string holds the characters they encode.
#[verifier::external_body]
fn utf8_string(b: Vec<u8>) -> (r: Option<String>)
    ensures
        r.is_some() == valid_utf8(b@),
        r matches Some(s) ==> s@ == decode_utf8(b@),
{
    String::from_utf8(b).ok()
}

fn copy_bytes(b: &Vec<u8>) -> (r: Vec<u8>)
    ensures
        r@ == b@,
{
    let mut r: Vec<u8> = Vec::new();
    let mut i: usize = 0;
    while i < b.len()
        invariant
            i <= b@.len(),
            r@ == b@.subrange(0, i as int),
        decreases b@.len() - i,
    {
        r.push(b[i]);
        assert(b@.subrange(0, i + 1) =~= b@.subrange(0, i as int).push(b@[i as int]));
        i = i + 1;
    }
    assert(b@.subrange(0, b@.len() as int) =~= b@);
    r
}

/// Reads the field `idx` of `row` as an `oid`.
pub fn get_oid(row: &Row, idx: usize) -> (r: Result<Oid, Error>)
    ensures
        r == oid_field(row@, idx as int),
{
    if idx >= row.len() {
        return Err(Error::UnexpectedMessage);
    }
    match &row[idx] {
        Some(b) => {
            if b.len() == 4 {
                Ok((b[0] as u32) * 0x1000000 + (b[1] as u32) * 0x10000 + (b[2] as u32) * 0x100 + (
                b[3] as u32))
            } else {
                Err(Error::FromSql(idx))
            }
        },
        None => Err(Error::UnexpectedMessage),
    }
}

/// Reads the field `idx` of `row` as a nullable `oid`.
pub fn get_opt_oid(row: &Row, idx: usize) -> (r: Result<Option<Oid>, Error>)
    ensures
        r == opt_oid_field(row@, idx as int),
{
    if idx >= row.len() {
        return Err(Error::UnexpectedMessage);
    }
    match &row[idx] {
        Some(_) => match get_oid(row, idx) {
            Ok(o) => Ok(Some(o)),
            Err(e) => Err(e),
        },
        None => Ok(None),
    }
}

/// Reads the field `idx` of `row` as a `"char"`.
pub fn get_char(row: &Row, idx: usize) -> (r: Result<i8, Error>)
    ensures
        r == char_field(row@, idx as int),
{
    if idx >= row.len() {
        return Err(Error::UnexpectedMessage);
    }
    match &row[idx] {
        Some(b) => {
            if b.len() == 1 {
                Ok(b[0] as i8)
            } else {
                Err(Error::FromSql(idx))
            }
        },
        None => Err(Error::UnexpectedMessage),
    }
}

/// Reads the field `idx` of `row` as text.
pub fn get_text(row: &Row, idx: usize) -> (r: Result<String, Error>)
    ensures
        match text_field(row@, idx as int) {
            Ok(s) => r matches Ok(t) && t@ == s,
            Err(e) => r == Result::<String, Error>::Err(e),
        },
{
    if idx >= row.len() {
        return Err(Error::UnexpectedMessage);
    }
    match &row[idx] {
        Some(b) => match utf8_string(copy_bytes(b)) {
            Some(s) => Ok(s),
            None => Err(Error::FromSql(idx)),
        },
        None => Err(Error::UnexpectedMessage),
    }
}

} // verus!
