//! Requests as a local caller hands them to its connection, before any
//! translation toward the wire.

use vstd::prelude::*;

use crate::value::LocalValue;

verus! {

/// A local caller's invocation of a remote object. `store_result` asks the
/// remote callee to bind the returned value under a caller-chosen
/// identifier so that returned object references survive.
#[derive(Debug, PartialEq, Eq)]
pub struct Call {
    pub mutable: bool,
    pub object_id: u64,
    pub method_id: u64,
    pub argument: Option<LocalValue>,
    pub store_result: bool,
}

/// A local request that the remote peer evict an identifier.
#[derive(Debug, Clone, Copy, PartialEq, Eq, Structural)]
pub struct Free {
    pub object_id: u64,
}

/// A request as a local caller hands it to the connection.
#[derive(Debug, PartialEq, Eq)]
pub enum Req {
    Call(Call),
    Free(Free),
}

} // verus!
