//! Responses as the connection delivers them to the local caller that
//! issued the matching request.

use vstd::prelude::*;

use crate::value::IncomingValue;

verus! {

/// The value a completed call returned, if any. A remote reference arrives
/// as [`IncomingValue::Remote`]; the hosting runtime turns it into a proxy
/// bound to this connection before handing it to user code.
#[derive(Debug, PartialEq, Eq)]
pub struct Return {
    pub value: Option<IncomingValue>,
}

/// Confirmation that the remote peer processed an eviction.
#[derive(Debug, Clone, Copy, PartialEq, Eq, Structural)]
pub struct Free;

/// A response as the connection delivers it to the original caller.
#[derive(Debug, PartialEq, Eq)]
pub enum Res {
    Call(Return),
    Free(Free),
}

} // verus!
