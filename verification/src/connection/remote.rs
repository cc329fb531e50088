//! The proxy side of a remote reference.
//!
//! A [`Remote`] binds the identifier of an object owned by the peer. Its
//! methods build the requests a proxy owes the connection: every call
//! forwards with `store_result` set, so that returned object references
//! survive in the callee's pool, and dropping the proxy owes the peer
//! exactly one [`Free`](crate::connection::req::Free) for its identifier.
//! The hosting runtime pairs the proxy with its connection, performs the
//! exchanges, and sends the free request from its drop path.

use vstd::prelude::*;

use crate::connection::req;
use crate::object::{Call, CallMut, ProxyInfo};

verus! {

/// A local stand-in for an object owned by the remote peer.
#[derive(Debug, Clone, Copy, PartialEq, Eq, Structural)]
pub struct Remote {
    pub id: u64,
}

impl Remote {
    /// Binds a proxy to the identifier the peer exposed.
    pub fn new(id: u64) -> (r: Self)
        ensures
            r.id == id,
    {
        Remote { id }
    }

    /// The request a shared-access invocation of this proxy sends: it
    /// targets the bound identifier and always asks the callee to store the
    /// result.
    pub fn call_request(&self, call: Call) -> (r: req::Req)
        ensures
            r matches req::Req::Call(c) && c == (req::Call {
                mutable: false,
                object_id: self.id,
                method_id: call.method_id,
                argument: call.argument,
                store_result: true,
            }),
    {
        req::Req::Call(
            req::Call {
                mutable: false,
                object_id: self.id,
                method_id: call.method_id,
                argument: call.argument,
                store_result: true,
            },
        )
    }

    /// The request an exclusive-access invocation of this proxy sends.
    pub fn call_mut_request(&self, call_mut: CallMut) -> (r: req::Req)
        ensures
            r matches req::Req::Call(c) && c == (req::Call {
                mutable: true,
                object_id: self.id,
                method_id: call_mut.method_id,
                argument: call_mut.argument,
                store_result: true,
            }),
    {
        req::Req::Call(
            req::Call {
                mutable: true,
                object_id: self.id,
                method_id: call_mut.method_id,
                argument: call_mut.argument,
                store_result: true,
            },
        )
    }

    /// The single free request this proxy owes the peer when it is dropped:
    /// it names exactly the bound identifier.
    pub fn free_request(&self) -> (r: req::Req)
        ensures
            r == req::Req::Free(req::Free { object_id: self.id }),
    {
        req::Req::Free(req::Free { object_id: self.id })
    }

    /// A proxy reports itself as one, naming the identifier it is bound to.
    pub fn proxy_info(&self) -> (r: Option<ProxyInfo>)
        ensures
            r == Some(ProxyInfo { object_id: self.id }),
    {
        Some(ProxyInfo { object_id: self.id })
    }
}

} // verus!
