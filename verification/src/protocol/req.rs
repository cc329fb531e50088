//! Requests as they appear on the wire.

use vstd::prelude::*;

use crate::value::{Value, ValueV};

verus! {

/// Asks the remote peer to invoke a method on one of its objects.
///
/// `to_object_id` is present iff the caller wants the callee to *store* the
/// returned value under that identifier (pipelining / capability return).
#[derive(Debug, PartialEq, Eq)]
pub struct Call {
    pub mutable: bool,
    pub object_id: u64,
    pub method_id: u64,
    pub argument: Option<Value>,
    pub to_object_id: Option<u64>,
}

/// Asks the remote peer to evict an object identifier from its pool.
#[derive(Debug, Clone, Copy, PartialEq, Eq, Structural)]
pub struct Free {
    pub object_id: u64,
}

/// The payload of a request.
#[derive(Debug, PartialEq, Eq)]
pub enum Ty {
    Call(Call),
    Free(Free),
}

/// A request envelope: the session-unique request id and the payload.
#[derive(Debug, PartialEq, Eq)]
pub struct Req {
    pub id: u64,
    pub ty: Ty,
}

/// The mathematical model of a [`Call`].
#[verifier::ext_equal]
pub struct CallV {
    pub mutable: bool,
    pub object_id: u64,
    pub method_id: u64,
    pub argument: Option<ValueV>,
    pub to_object_id: Option<u64>,
}

/// The mathematical model of a [`Ty`].
#[verifier::ext_equal]
pub enum TyV {
    Call(CallV),
    Free(Free),
}

/// The mathematical model of a [`Req`].
#[verifier::ext_equal]
pub struct ReqV {
    pub id: u64,
    pub ty: TyV,
}

impl View for Call {
    type V = CallV;

    open spec fn view(&self) -> CallV {
        CallV {
            mutable: self.mutable,
            object_id: self.object_id,
            method_id: self.method_id,
            argument: match self.argument {
                Some(v) => Some(v@),
                None => None,
            },
            to_object_id: self.to_object_id,
        }
    }
}

impl View for Ty {
    type V = TyV;

    open spec fn view(&self) -> TyV {
        match self {
            Ty::Call(call) => TyV::Call(call@),
            Ty::Free(free) => TyV::Free(*free),
        }
    }
}

impl View for Req {
    type V = ReqV;

    open spec fn view(&self) -> ReqV {
        ReqV { id: self.id, ty: self.ty@ }
    }
}

} // verus!
