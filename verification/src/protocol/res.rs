//! Responses as they appear on the wire.

use vstd::prelude::*;

use crate::value::{Value, ValueV};

verus! {

/// The value (if any) returned by a completed call.
#[derive(Debug, PartialEq, Eq)]
pub struct Return {
    pub value: Option<Value>,
}

/// The payload of a response.
#[derive(Debug, PartialEq, Eq)]
pub enum Ty {
    Call(Return),
    Free,
}

/// A response envelope: the id of the request it answers and the payload.
#[derive(Debug, PartialEq, Eq)]
pub struct Res {
    pub id: u64,
    pub ty: Ty,
}

/// The mathematical model of a [`Return`].
#[verifier::ext_equal]
pub struct ReturnV {
    pub value: Option<ValueV>,
}

/// The mathematical model of a [`Ty`].
#[verifier::ext_equal]
pub enum TyV {
    Call(ReturnV),
    Free,
}

/// The mathematical model of a [`Res`].
#[verifier::ext_equal]
pub struct ResV {
    pub id: u64,
    pub ty: TyV,
}

impl View for Return {
    type V = ReturnV;

    open spec fn view(&self) -> ReturnV {
        ReturnV {
            value: match self.value {
                Some(v) => Some(v@),
                None => None,
            },
        }
    }
}

impl View for Ty {
    type V = TyV;

    open spec fn view(&self) -> TyV {
        match self {
            Ty::Call(ret) => TyV::Call(ret@),
            Ty::Free => TyV::Free,
        }
    }
}

impl View for Res {
    type V = ResV;

    open spec fn view(&self) -> ResV {
        ResV { id: self.id, ty: self.ty@ }
    }
}

} // verus!
