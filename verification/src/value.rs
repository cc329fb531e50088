//! Values that cross the wire and values that sit in a peer's pool.

use vstd::prelude::*;

verus! {

/// Identifies which peer owns the object behind a reference.
///
/// For the current engine only the immediate peer is meaningful; a non-zero
/// owner index in a wire [`Value::Ref`] is reserved for future routing.
#[derive(Debug, Clone, Copy, PartialEq, Eq, Structural)]
pub enum Owner {
    Local,
    Remote,
}

/// An opaque byte payload: a terminal value carried on the wire.
#[derive(Debug, PartialEq, Eq)]
pub struct Lit(pub Vec<u8>);

/// A value as it appears on the wire: either an opaque byte payload or a
/// reference to an object owned by a peer.
#[derive(Debug, PartialEq, Eq)]
pub enum Value {
    Lit(Lit),
    Ref { owner: u32, id: u64 },
}

/// A handle that stands for a running local object.
///
/// The engine never looks inside an object; it only stores, clones and hands
/// back handles. The runtime that hosts the engine maps each token to the
/// task or actor that actually executes calls.
#[derive(Debug, Clone, Copy, PartialEq, Eq, Structural)]
pub struct ObjectHandle {
    pub token: u64,
}

/// What sits inside a pool: an opaque byte payload, or a handle to a local
/// object actor.
#[derive(Debug, PartialEq, Eq)]
pub enum LocalValue {
    Lit(Vec<u8>),
    Actor(ObjectHandle),
}

/// The mathematical model of a [`Value`].
#[verifier::ext_equal]
pub enum ValueV {
    Lit { bytes: Seq<u8> },
    Ref { owner: u32, id: u64 },
}

/// The mathematical model of a [`LocalValue`].
#[verifier::ext_equal]
pub enum LocalValueV {
    Lit { bytes: Seq<u8> },
    Actor { token: u64 },
}

impl View for Lit {
    type V = Seq<u8>;

    open spec fn view(&self) -> Seq<u8> {
        self.0@
    }
}

impl View for Value {
    type V = ValueV;

    open spec fn view(&self) -> ValueV {
        match self {
            Value::Lit(lit) => ValueV::Lit { bytes: lit@ },
            Value::Ref { owner, id } => ValueV::Ref { owner: *owner, id: *id },
        }
    }
}

impl View for LocalValue {
    type V = LocalValueV;

    open spec fn view(&self) -> LocalValueV {
        match self {
            LocalValue::Lit(bytes) => LocalValueV::Lit { bytes: bytes@ },
            LocalValue::Actor(handle) => LocalValueV::Actor { token: handle.token },
        }
    }
}

impl LocalValue {
    /// Wraps an owned byte payload as a pool value.
    pub fn lit(value: Vec<u8>) -> (r: Self)
        ensures
            r@ == (LocalValueV::Lit { bytes: value@ }),
    {
        LocalValue::Lit(value)
    }

    /// Wraps a handle to a running local object as a pool value.
    pub fn from_object(handle: ObjectHandle) -> (r: Self)
        ensures
            r@ == (LocalValueV::Actor { token: handle.token }),
    {
        LocalValue::Actor(handle)
    }
}

/// A value as it arrives from the wire, before the hosting runtime
/// materializes it: either an opaque byte payload, or a remote reference
/// that the runtime must turn into a proxy bound to the connection it
/// arrived on.
#[derive(Debug, PartialEq, Eq)]
pub enum IncomingValue {
    Lit(Vec<u8>),
    Remote { owner: u32, id: u64 },
}

/// The mathematical model of an [`IncomingValue`].
#[verifier::ext_equal]
pub enum IncomingValueV {
    Lit { bytes: Seq<u8> },
    Remote { owner: u32, id: u64 },
}

impl View for IncomingValue {
    type V = IncomingValueV;

    open spec fn view(&self) -> IncomingValueV {
        match self {
            IncomingValue::Lit(bytes) => IncomingValueV::Lit { bytes: bytes@ },
            IncomingValue::Remote { owner, id } => IncomingValueV::Remote {
                owner: *owner,
                id: *id,
            },
        }
    }
}

/// How a wire value is lifted toward the local side: bytes pass through, a
/// reference becomes a proxy to be bound to the receiving connection.
pub open spec fn lifts_value(wire: ValueV, local: IncomingValueV) -> bool {
    match wire {
        ValueV::Lit { bytes } => local == (IncomingValueV::Lit { bytes }),
        ValueV::Ref { owner, id } => local == (IncomingValueV::Remote { owner, id }),
    }
}

/// Lifting for optional values: absence passes through.
pub open spec fn lifts_opt_value(wire: Option<ValueV>, local: Option<IncomingValueV>) -> bool {
    match wire {
        None => local is None,
        Some(v) => local matches Some(l) && lifts_value(v, l),
    }
}

impl Clone for LocalValue {
    fn clone(&self) -> (r: Self)
        ensures
            r@ == self@,
    {
        match self {
            LocalValue::Lit(bytes) => LocalValue::Lit(clone_bytes(bytes)),
            LocalValue::Actor(handle) => LocalValue::Actor(*handle),
        }
    }
}

/// Clones a byte vector and carries its contents into the copy.
pub fn clone_bytes(bytes: &Vec<u8>) -> (r: Vec<u8>)
    ensures
        r@ == bytes@,
{
    let r = bytes.clone();
    proof {
        assert(r@ =~= bytes@);
    }
    r
}

} // verus!
