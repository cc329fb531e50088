//! A bidirectional, capability-oriented RPC runtime.
//!
//! Two peers connected by an ordered, reliable duplex of length-delimited
//! byte frames expose *objects* to each other and invoke methods on remote
//! objects. Method arguments and return values may themselves be object
//! references, so lifetimes of a distributed object graph are tracked across
//! both peers.
//!
//! The crate verifies the three coupled subsystems at the heart of the
//! runtime:
//!
//! * [`pool`] — an asynchronous keyed store whose entries may be
//!   *unresolved* (a promise placeholder awaiting fulfillment) or *resolved*
//!   (an actual value). Readers may arrive before writers.
//! * [`connection`] — the duplex engine: it serializes outbound requests,
//!   matches responses to pending callers, dispatches inbound requests to
//!   local objects and tracks remote-reference lifetimes.
//! * [`codec`] + [`protocol`] — the stable byte layout of messages,
//!   requests, responses and values, with proved encode/decode round trips.
//!
//! All engine state transitions are synchronous, verified functions. The
//! asynchronous shell — transports, task spawning, suspension — stays
//! outside the crate and drives the engine through the actions these
//! functions return.

pub mod ast;
pub mod codec;
pub mod connection;
pub mod gen;
pub mod object;
pub mod pool;
pub mod protocol;
pub mod value;
