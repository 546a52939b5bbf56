//! Portals: bound statements whose rows can be fetched in batches.
use vstd::prelude::*;
use std::sync::Arc;
use vstd::utf8::encode_utf8;
use crate::error::Error;
use crate::frontend::{close_msg, close_request, sync_msg, target_ok};
use crate::statement::Statement;

verus! {

/// What a portal holds.
#[derive(Debug)]
pub struct PortalInner {
    /// The server-side name.
    pub name: String,
    /// The statement it was bound from.
    pub statement: Statement,
}

/// A shared handle to a portal. When the last handle goes, the owner sends
/// the request of `close_request` to free the server-side copy.
#[derive(Debug)]
pub struct Portal {
    pub inner: Arc<PortalInner>,
}

impl Portal {
    pub fn new(name: String, statement: Statement) -> (r: Portal)
        ensures
            r.inner.name == name,
            r.inner.statement == statement,
    {
        Portal { inner: Arc::new(PortalInner { name, statement }) }
    }

    /// Another handle to the same portal.
    pub fn share(&self) -> (r: Portal)
        ensures
            r == *self,
    {
        Portal { inner: Arc::clone(&self.inner) }
    }

    pub fn name(&self) -> (r: &str)
        ensures
            r@ == self.inner.name@,
    {
        self.inner.name.as_str()
    }

    pub fn statement(&self) -> (r: &Statement)
        ensures
            *r == self.inner.statement,
    {
        &self.inner.statement
    }

    /// The request that frees the portal on the server: `Close` of its name,
    /// then `Sync`.
    pub fn close_request(&self) -> (r: Result<Vec<u8>, Error>)
        ensures
            r.is_ok() == target_ok(encode_utf8(self.inner.name@)),
            r matches Ok(b) ==> b@ == close_msg(0x50, encode_utf8(self.inner.name@))
                + sync_msg(),
    {
        close_request(0x50, self.inner.name.as_str())
    }
}

} // verus!
