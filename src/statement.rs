//! Prepared statements.
use vstd::prelude::*;
use std::sync::Arc;
use vstd::utf8::encode_utf8;
use crate::error::Error;
use crate::frontend::{close_msg, close_request, sync_msg, target_ok};
use crate::types::Type;

verus! {

/// A column of the rows that a statement returns.
#[derive(Debug, Clone)]
pub struct Column {
    pub name: String,
    pub type_: Type,
}

/// What a prepared statement holds.
#[derive(Debug)]
pub struct StatementInner {
    /// The server-side name.
    pub name: String,
    /// The types of the parameters.
    pub params: Vec<Type>,
    /// The columns of the rows it returns.
    pub columns: Vec<Column>,
}

/// A shared handle to a prepared statement. When the last handle goes, the
/// owner sends the request of `close_request` to free the server-side copy.
#[derive(Debug)]
pub struct Statement {
    pub inner: Arc<StatementInner>,
}

impl Statement {
    pub fn new(name: String, params: Vec<Type>, columns: Vec<Column>) -> (r: Statement)
        ensures
            r.inner.name == name,
            r.inner.params == params,
            r.inner.columns == columns,
    {
        Statement { inner: Arc::new(StatementInner { name, params, columns }) }
    }

    /// Another handle to the same statement.
    pub fn share(&self) -> (r: Statement)
        ensures
            r == *self,
    {
        Statement { inner: Arc::clone(&self.inner) }
    }

    pub fn name(&self) -> (r: &str)
        ensures
            r@ == self.inner.name@,
    {
        self.inner.name.as_str()
    }

    pub fn params(&self) -> (r: &[Type])
        ensures
            r@ == self.inner.params@,
    {
        self.inner.params.as_slice()
    }

    pub fn columns(&self) -> (r: &[Column])
        ensures
            r@ == self.inner.columns@,
    {
        self.inner.columns.as_slice()
    }

    /// The request that frees the statement on the server: `Close` of its
    /// name, then `Sync`.
    pub fn close_request(&self) -> (r: Result<Vec<u8>, Error>)
        ensures
            r.is_ok() == target_ok(encode_utf8(self.inner.name@)),
            r matches Ok(b) ==> b@ == close_msg(0x53, encode_utf8(self.inner.name@))
                + sync_msg(),
    {
        close_request(0x53, self.inner.name.as_str())
    }
}

} // verus!
