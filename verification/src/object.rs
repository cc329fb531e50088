//! The capability contract every addressable object conforms to.
//!
//! A user-supplied local object, a pool-stored byte payload treated as a
//! terminal, and a proxy for a remote object all answer the same three
//! questions: a shared-access call, an exclusive-access call, and whether
//! the object is a proxy. The uniform contract lets a pool store concrete
//! objects and proxies interchangeably.

use vstd::prelude::*;

use crate::value::LocalValue;

verus! {

/// Why a call on an object failed.
#[derive(Debug, Clone, Copy, PartialEq, Eq, Structural)]
pub enum CallError {
    InvalidResponse,
    Failed,
    Comm,
    UnknownMethod,
    InvalidArgument,
}

/// A shared-access invocation: the method and an optional argument.
#[derive(Debug)]
pub struct Call {
    pub method_id: u64,
    pub argument: Option<LocalValue>,
}

impl Call {
    pub fn new(method_id: u64, argument: Option<LocalValue>) -> (r: Self)
        ensures
            r.method_id == method_id,
            r.argument == argument,
    {
        Call { method_id, argument }
    }
}

/// An exclusive-access invocation: the method and an optional argument.
#[derive(Debug)]
pub struct CallMut {
    pub method_id: u64,
    pub argument: Option<LocalValue>,
}

/// What an invocation produced, if anything.
#[derive(Debug)]
pub struct Return {
    pub result: Option<LocalValue>,
}

/// Metadata reported by objects that are proxies for a remote object: the
/// identifier the proxy is bound to.
#[derive(Debug, Clone, Copy, PartialEq, Eq, Structural)]
pub struct ProxyInfo {
    pub object_id: u64,
}

/// The capability contract. Implemented by user-supplied local objects; the
/// hosting runtime implements it for proxies by forwarding over a
/// connection.
///
/// `call` and `call_mut` differ only in whether the callee needs exclusive
/// access to its state. `proxy_info` returns metadata iff the object is a
/// proxy, which lets an engine forward a reference instead of re-exposing
/// the object locally.
pub trait Object {
    fn call(&self, call: Call) -> Result<Return, CallError>;

    fn call_mut(&mut self, call_mut: CallMut) -> Result<Return, CallError>;

    fn proxy_info(&self) -> Option<ProxyInfo>;
}

} // verus!
