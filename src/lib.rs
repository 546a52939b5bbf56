//! The protocol core of an asynchronous PostgreSQL client: the request state
//! machines, the type-resolution engine and the connection pipeline, each
//! written as a transition function that is driven by the messages the
//! backend sends.
use vstd::prelude::*;

pub mod error;
pub mod frontend;
pub mod message;
pub mod rows;
pub mod types;
pub mod statement;
pub mod portal;
pub mod execute;
pub mod execute_sink;
pub mod idle;
pub mod ids;
pub mod bind;
pub mod simple_query;
pub mod query;
pub mod prepare;
pub mod copy_in;
pub mod copy_out;
pub mod transaction;
pub mod config;
pub mod connect;
pub mod startup;
pub mod client;
pub mod connection;
pub mod pipeline;
pub mod row;
pub mod typeinfo;
pub mod typeinfo_enum;
pub mod typeinfo_composite;
pub mod resolve;

verus! {

/// A PostgreSQL object identifier.
pub type Oid = u32;

} // verus!
