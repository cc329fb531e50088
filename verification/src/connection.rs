//! The bidirectional connection engine.
//!
//! A connection owns one peer's session state: the pool of addressable
//! objects, the outstanding-request table, the request-id counter and the
//! low-range identifier allocator for pipelined return slots. All of its
//! transitions are synchronous verified functions; the hosting runtime
//! performs the outside work they call for — sending the returned frames,
//! invoking objects, suspending on waiters — and feeds the results back in.
//!
//! Outbound: [`Connection::handle_req`] turns a local request into an
//! encoded frame and registers the caller in the outstanding table.
//! Inbound: [`Connection::handle_frame`] decodes a frame and either
//! dispatches a request against the pool or matches a response to its
//! waiting caller. A request aimed at a local object yields an
//! [`InboundStep::Invoke`]; the runtime performs the call and hands the
//! result to [`Connection::finish_inbound`], which builds the response
//! frame and stores pipelined results under the caller-chosen identifier.

use std::collections::HashMap;

use vstd::prelude::*;

use crate::codec::{decode_msg, decode_req, decode_res, enc_msg, enc_req, enc_res, encode_msg,
    encode_req, encode_res};
use crate::pool::{entries_view, is_high_key, is_low_key, waiters_of, Entry, EntryV, Expose, Get,
    GetOutcome, Pool, Remove, Waiter, InsertResolved, HIGH_RANGE_START};
use crate::protocol as proto;
use crate::protocol::{Dir, Msg, MsgV};
use crate::value::{lifts_opt_value, IncomingValue, IncomingValueV, Lit, LocalValue, LocalValueV,
    ObjectHandle, Value, ValueV};

pub mod remote;
pub mod req;
pub mod res;

verus! {

broadcast use vstd::std_specs::hash::group_hash_axioms;

/// Where a session stands. A fatal decode error or inbound end-of-stream
/// moves a running session to `Draining`: new outbound calls are rejected
/// while still-running inbound requests complete. An explicit shutdown, or
/// counter exhaustion, moves it to `Closed`.
#[derive(Debug, Clone, Copy, PartialEq, Eq, Structural)]
pub enum SessionState {
    Running,
    Draining,
    Closed,
}

/// Why the connection refused to act.
#[derive(Debug, Clone, Copy, PartialEq, Eq, Structural)]
pub enum ConnectionError {
    /// The session is not running, or one of its identifier ranges is
    /// exhausted (exhaustion is fatal: the session closes).
    SessionClosed,
    /// A frame could not be decoded; fatal to the session.
    FramingError,
}

/// A translated outbound request: the frame to put on the wire, and the
/// request id under which the caller now waits in the outstanding table.
#[derive(Debug)]
pub struct OutboundRequest {
    pub request_id: u64,
    pub req: proto::req::Req,
    pub frame: Vec<u8>,
}

/// A response ready for the wire, together with the waiters freed if the
/// request evicted an unresolved pool entry: the runtime owes each of them
/// an `Unresolvable` outcome.
#[derive(Debug)]
pub struct OutboundResponse {
    pub res: proto::res::Res,
    pub frame: Vec<u8>,
    pub waiters: Vec<Waiter>,
}

/// What the engine remembers between asking the runtime to invoke an object
/// and building the response from the invocation's result.
#[derive(Debug, Clone, Copy, PartialEq, Eq)]
pub struct PendingInvoke {
    pub req_id: u64,
    pub to_object_id: Option<u64>,
}

/// What the engine remembers while an inbound request waits for its target
/// key to resolve: the runtime suspends on `waiter` and resumes the request
/// with the value the waiter receives.
#[derive(Debug)]
pub struct PendingTarget {
    pub req_id: u64,
    pub waiter: Waiter,
    pub call: proto::req::Call,
}

/// What an inbound request asks the runtime to do next.
#[derive(Debug)]
pub enum InboundStep {
    /// Send this response; nothing else to do.
    Respond(OutboundResponse),
    /// Invoke the local object behind `handle` (exclusively if `mutable`),
    /// then hand the result to [`Connection::finish_inbound`] with `cont`.
    Invoke {
        handle: ObjectHandle,
        mutable: bool,
        method_id: u64,
        argument: Option<IncomingValue>,
        cont: PendingInvoke,
    },
    /// The target key is unresolved: suspend on `pending.waiter` and hand
    /// the resolved value to [`Connection::resume_target`] with `pending`.
    AwaitTarget { pending: PendingTarget },
}

/// A matched response, ready to hand to the caller that issued the request.
#[derive(Debug)]
pub struct Delivery {
    pub request_id: u64,
    pub res: res::Res,
}

/// What one decoded frame amounts to.
#[derive(Debug)]
pub enum Inbound {
    Request(InboundStep),
    /// `None`: the response matched no outstanding request and was dropped
    /// without side effect.
    Response(Option<Delivery>),
}

/// Everything an explicit shutdown rejects: the outstanding table (each id
/// is owed a session-closed error) and the pool bindings (each waiter still
/// suspended is owed an `Unresolvable` outcome).
#[derive(Debug)]
pub struct Teardown {
    pub outstanding: HashMap<u64, ()>,
    pub entries: HashMap<u64, Entry>,
}

/// One peer's session engine.
pub struct Connection {
    request_iter: u64,
    object_iter: u64,
    pool: Pool,
    outstanding: HashMap<u64, ()>,
    state: SessionState,
}

// ---------------------------------------------------------------------------
// The model of a connection
// ---------------------------------------------------------------------------

impl Connection {
    /// The last request id issued; ids are `1..=request_cursor()`.
    pub closed spec fn request_cursor(&self) -> u64 {
        self.request_iter
    }

    /// The next low-range identifier for a pipelined return slot.
    pub closed spec fn object_cursor(&self) -> u64 {
        self.object_iter
    }

    /// The pool value this connection owns.
    pub closed spec fn pool_state(&self) -> Pool {
        self.pool
    }

    /// What the pool binds.
    pub open spec fn pool_entries(&self) -> Map<u64, EntryV> {
        self.pool_state()@
    }

    /// The next high-range key the pool would expose under.
    pub open spec fn pool_expose_cursor(&self) -> u64 {
        self.pool_state().expose_cursor()
    }

    /// The ids of requests sent and not yet answered.
    pub closed spec fn outstanding(&self) -> Set<u64> {
        self.outstanding@.dom()
    }

    /// Where the session stands.
    pub closed spec fn state(&self) -> SessionState {
        self.state
    }

    /// Well-formedness: every outstanding request id was issued, that is,
    /// lies in `1..=request_cursor()`. [`Connection::new`] establishes it
    /// and every transition preserves it.
    pub open spec fn wf(&self) -> bool {
        forall|id: u64| self.outstanding().contains(id) ==> 1 <= id <= self.request_cursor()
    }
}

/// The session bookkeeping (counters, outstanding table, state) is the same
/// on both sides.
pub open spec fn same_session(pre: Connection, post: Connection) -> bool {
    &&& post.request_cursor() == pre.request_cursor()
    &&& post.object_cursor() == pre.object_cursor()
    &&& post.outstanding() == pre.outstanding()
    &&& post.state() == pre.state()
}

/// The pool (bindings and expose cursor) is the same on both sides.
pub open spec fn same_pool(pre: Connection, post: Connection) -> bool {
    &&& post.pool_entries() == pre.pool_entries()
    &&& post.pool_expose_cursor() == pre.pool_expose_cursor()
}

/// `out` carries exactly the response `rv`, correctly framed for the wire.
pub open spec fn is_response_for(out: OutboundResponse, rv: proto::res::ResV) -> bool {
    &&& out.res@ == rv
    &&& out.frame@ == enc_msg(MsgV { dir: Dir::Res, data: enc_res(rv) })
}

/// The view of an optional incoming value.
pub open spec fn opt_incoming_view(o: Option<IncomingValue>) -> Option<IncomingValueV> {
    match o {
        Some(v) => Some(v@),
        None => None,
    }
}

/// A response with no value: what a call on a byte payload, on an unknown
/// key, or on an object that returned nothing answers.
pub open spec fn empty_return(id: u64) -> proto::res::ResV {
    proto::res::ResV { id, ty: proto::res::TyV::Call(proto::res::ReturnV { value: None }) }
}

/// How dispatching a call against a resolved target must behave: a byte
/// payload answers an empty response (calls on literals are no-ops at this
/// layer); an object handle asks the runtime to invoke it, with the wire
/// argument lifted (bytes pass through, a reference becomes a proxy).
pub open spec fn dispatch_step(
    req_id: u64,
    c: proto::req::CallV,
    target: LocalValueV,
    step: InboundStep,
) -> bool {
    match target {
        LocalValueV::Lit { .. } => step matches InboundStep::Respond(out) && is_response_for(
            out,
            empty_return(req_id),
        ) && out.waiters@ == Seq::<Waiter>::empty(),
        LocalValueV::Actor { token } => step matches InboundStep::Invoke {
            handle,
            mutable,
            method_id,
            argument,
            cont,
        } && {
            &&& handle.token == token
            &&& mutable == c.mutable
            &&& method_id == c.method_id
            &&& lifts_opt_incoming(c.argument, opt_incoming_view(argument))
            &&& cont == (PendingInvoke { req_id, to_object_id: c.to_object_id })
        },
    }
}

/// Lifting an optional wire value toward the local side.
pub open spec fn lifts_opt_incoming(
    wire: Option<ValueV>,
    local: Option<IncomingValueV>,
) -> bool {
    lifts_opt_value(wire, local)
}

/// How an inbound request must be handled (the request pump's contract).
///
/// * `Free{k}` evicts `k` (an unknown id is not an error on the wire), hands
///   back the waiters that eviction released, and answers a free response.
/// * `Call` looks the target up: an unbound id answers an empty response; an
///   unresolved target registers a waiter and suspends the request; a
///   resolved target is dispatched per [`dispatch_step`].
///
/// Counters, the outstanding table and the session state never move.
pub open spec fn inbound_request_step(
    pre: Connection,
    post: Connection,
    rv: proto::req::ReqV,
    step: InboundStep,
) -> bool {
    &&& same_session(pre, post)
    &&& post.pool_expose_cursor() == pre.pool_expose_cursor()
    &&& match rv.ty {
        proto::req::TyV::Free(f) => {
            &&& step matches InboundStep::Respond(out)
            &&& is_response_for(
                out,
                proto::res::ResV { id: rv.id, ty: proto::res::TyV::Free },
            )
            &&& out.waiters@ == waiters_of(pre.pool_entries(), f.object_id)
            &&& post.pool_entries() == pre.pool_entries().remove(f.object_id)
        },
        proto::req::TyV::Call(c) => {
            if !pre.pool_entries().contains_key(c.object_id) {
                &&& step matches InboundStep::Respond(out)
                &&& is_response_for(out, empty_return(rv.id))
                &&& out.waiters@ == Seq::<Waiter>::empty()
                &&& post.pool_entries() == pre.pool_entries()
            } else {
                match pre.pool_entries()[c.object_id] {
                    EntryV::Resolved { value } => {
                        &&& post.pool_entries() == pre.pool_entries()
                        &&& dispatch_step(rv.id, c, value, step)
                    },
                    EntryV::Unresolved { waiters } => {
                        &&& step matches InboundStep::AwaitTarget { pending }
                        &&& pending.req_id == rv.id
                        &&& pending.call@ == c
                        &&& pending.waiter == (Waiter { key: c.object_id, seq: pending.waiter.seq })
                        &&& pending.waiter.seq == waiters.len()
                        &&& post.pool_entries() == pre.pool_entries().insert(
                            c.object_id,
                            EntryV::Unresolved { waiters: waiters.push(pending.waiter) },
                        )
                    },
                }
            }
        },
    }
}

/// How the result of an invocation becomes a response (the return-value
/// rules of the request pump):
///
/// * a caller-chosen slot plus a non-empty result: the result is stored
///   under the slot and a reference to it is returned — unless the slot is
///   already bound, in which case nothing is stored and no value returned;
/// * no slot: a byte payload is returned inline; an object cannot cross the
///   wire anonymously, so it yields no value;
/// * an empty result yields no value.
pub open spec fn finish_step(
    pre: Connection,
    post: Connection,
    cont: PendingInvoke,
    result: Option<LocalValueV>,
    out: OutboundResponse,
) -> bool {
    &&& same_session(pre, post)
    &&& post.pool_expose_cursor() == pre.pool_expose_cursor()
    &&& out.waiters@ == Seq::<Waiter>::empty()
    &&& match (cont.to_object_id, result) {
        (Some(t), Some(v)) => {
            if !pre.pool_entries().contains_key(t) {
                &&& post.pool_entries() == pre.pool_entries().insert(
                    t,
                    EntryV::Resolved { value: v },
                )
                &&& is_response_for(
                    out,
                    proto::res::ResV {
                        id: cont.req_id,
                        ty: proto::res::TyV::Call(
                            proto::res::ReturnV { value: Some(ValueV::Ref { owner: 0, id: t }) },
                        ),
                    },
                )
            } else {
                &&& post.pool_entries() == pre.pool_entries()
                &&& is_response_for(out, empty_return(cont.req_id))
            }
        },
        (None, Some(v)) => {
            &&& post.pool_entries() == pre.pool_entries()
            &&& match v {
                LocalValueV::Lit { bytes } => is_response_for(
                    out,
                    proto::res::ResV {
                        id: cont.req_id,
                        ty: proto::res::TyV::Call(
                            proto::res::ReturnV { value: Some(ValueV::Lit { bytes }) },
                        ),
                    },
                ),
                LocalValueV::Actor { .. } => is_response_for(out, empty_return(cont.req_id)),
            }
        },
        (_, None) => {
            &&& post.pool_entries() == pre.pool_entries()
            &&& is_response_for(out, empty_return(cont.req_id))
        },
    }
}

/// How an inbound response must be handled (the response pump's contract):
/// a response whose id matches an outstanding request evicts that id and is
/// delivered, values lifted; one that matches nothing is dropped without
/// side effect.
pub open spec fn inbound_response_step(
    pre: Connection,
    post: Connection,
    rv: proto::res::ResV,
    r: Option<Delivery>,
) -> bool {
    match r {
        Some(d) => {
            &&& pre.outstanding().contains(rv.id)
            &&& d.request_id == rv.id
            &&& post.outstanding() == pre.outstanding().remove(rv.id)
            &&& post.request_cursor() == pre.request_cursor()
            &&& post.object_cursor() == pre.object_cursor()
            &&& post.state() == pre.state()
            &&& same_pool(pre, post)
            &&& match rv.ty {
                proto::res::TyV::Free => d.res is Free,
                proto::res::TyV::Call(ret) => d.res matches res::Res::Call(rr)
                    && lifts_opt_incoming(ret.value, opt_incoming_view(rr.value)),
            }
        },
        None => {
            &&& !pre.outstanding().contains(rv.id)
            &&& same_session(pre, post)
            &&& same_pool(pre, post)
        },
    }
}

/// When an outbound request is refused: the session is not running, or the
/// request-id counter, the low-range slot allocator, or the pool's high
/// range is exhausted.
pub open spec fn outbound_refused(pre: Connection, msg: req::Req) -> bool {
    ||| !(pre.state() is Running)
    ||| pre.request_cursor() == u64::MAX
    ||| (msg matches req::Req::Call(c) && c.store_result && !is_low_key(pre.object_cursor()))
    ||| (msg matches req::Req::Call(c) && c.argument matches Some(a) && a@ is Actor && is_low_key(
        pre.pool_expose_cursor(),
    ))
}

/// How an accepted outbound request must behave: the next request id is
/// issued and registered as outstanding; the argument is translated (bytes
/// pass through; a local object is exposed in the pool under a fresh
/// high-range key and travels as a reference to it); a stored-result call
/// carries the next low-range slot; the frame is the encoding of exactly
/// the request built.
pub open spec fn outbound_step(
    pre: Connection,
    post: Connection,
    msg: req::Req,
    out: OutboundRequest,
) -> bool {
    &&& post.state() == pre.state()
    &&& out.request_id == pre.request_cursor() + 1
    &&& post.request_cursor() == out.request_id
    &&& post.outstanding() == pre.outstanding().insert(out.request_id)
    &&& out.req@.id == out.request_id
    &&& out.frame@ == enc_msg(MsgV { dir: Dir::Req, data: enc_req(out.req@) })
    &&& match msg {
        req::Req::Call(c) => {
            &&& out.req@.ty matches proto::req::TyV::Call(pc) && {
                &&& pc.mutable == c.mutable
                &&& pc.object_id == c.object_id
                &&& pc.method_id == c.method_id
                &&& if c.store_result {
                    &&& pc.to_object_id == Some(pre.object_cursor())
                    &&& is_low_key(pre.object_cursor())
                    &&& post.object_cursor() == pre.object_cursor() + 1
                } else {
                    &&& pc.to_object_id is None
                    &&& post.object_cursor() == pre.object_cursor()
                }
                &&& match c.argument {
                    None => pc.argument is None && same_pool(pre, post),
                    Some(a) => match a@ {
                        LocalValueV::Lit { bytes } => pc.argument == Some(
                            ValueV::Lit { bytes },
                        ) && same_pool(pre, post),
                        LocalValueV::Actor { token } => {
                            &&& pc.argument == Some(
                                ValueV::Ref { owner: 0, id: pre.pool_expose_cursor() },
                            )
                            &&& is_high_key(pre.pool_expose_cursor())
                            &&& post.pool_entries() == pre.pool_entries().insert(
                                pre.pool_expose_cursor(),
                                EntryV::Resolved { value: a@ },
                            )
                            &&& post.pool_expose_cursor() == pre.pool_expose_cursor() - 1
                        },
                    },
                }
            }
        },
        req::Req::Free(f) => {
            &&& out.req@.ty == proto::req::TyV::Free(proto::req::Free { object_id: f.object_id })
            &&& same_pool(pre, post)
            &&& post.object_cursor() == pre.object_cursor()
        },
    }
}

/// Law: request ids are strictly increasing within a session — two
/// outbound requests accepted one after the other carry consecutive ids,
/// so no id is ever reused.
///
/// The premises quote [`Connection::handle_req`]'s contract for two
/// successive accepted requests.
pub proof fn lemma_request_ids_strictly_increase(
    s0: Connection,
    s1: Connection,
    s2: Connection,
    m1: req::Req,
    m2: req::Req,
    o1: OutboundRequest,
    o2: OutboundRequest,
)
    requires
        outbound_step(s0, s1, m1, o1),
        outbound_step(s1, s2, m2, o2),
    ensures
        o2.request_id == o1.request_id + 1,
        o2.request_id > o1.request_id,
{
}

/// Law: request ids are never reused — an accepted outbound request's id
/// differs from every id still outstanding, and the connection stays
/// well formed, so the outstanding table never holds two requests under one
/// id.
pub proof fn lemma_request_ids_never_reused(
    pre: Connection,
    post: Connection,
    msg: req::Req,
    out: OutboundRequest,
)
    requires
        pre.wf(),
        outbound_step(pre, post, msg, out),
    ensures
        !pre.outstanding().contains(out.request_id),
        post.wf(),
{
}

/// Law: a call that asked its result stored under the fresh slot `t` makes
/// a later call addressed to `t` find a binding iff the result was
/// non-empty — the round trip of pipelined references.
///
/// The premise quotes [`Connection::finish_inbound`]'s contract; the
/// conclusion is the pool state that a later inbound call addressed to `t`
/// dispatches against.
pub proof fn lemma_pipelined_slot(
    pre: Connection,
    post: Connection,
    cont: PendingInvoke,
    t: u64,
    result: Option<LocalValueV>,
    out: OutboundResponse,
)
    requires
        finish_step(pre, post, cont, result, out),
        cont.to_object_id == Some(t),
        !pre.pool_entries().contains_key(t),
    ensures
        match result {
            Some(v) => post.pool_entries().contains_key(t) && post.pool_entries()[t]
                == (EntryV::Resolved { value: v }),
            None => !post.pool_entries().contains_key(t),
        },
{
}

/// Law: every reference an outbound request emits identifies a key that is
/// bound in the sender's pool at emission time — the argument travels as a
/// reference only after the object was exposed under that key.
pub proof fn lemma_outbound_refs_are_bound(
    pre: Connection,
    post: Connection,
    msg: req::Req,
    out: OutboundRequest,
    owner: u32,
    id: u64,
)
    requires
        outbound_step(pre, post, msg, out),
        out.req@.ty matches proto::req::TyV::Call(pc) && pc.argument == Some(
            ValueV::Ref { owner, id },
        ),
    ensures
        post.pool_entries().contains_key(id),
        post.pool_entries()[id] is Resolved,
{
}

/// Law: every reference a response emits identifies a key that is bound in
/// the sender's pool at emission time — a stored-result reference is emitted
/// only after the result was bound under the caller-chosen slot.
pub proof fn lemma_response_refs_are_bound(
    pre: Connection,
    post: Connection,
    cont: PendingInvoke,
    result: Option<LocalValueV>,
    out: OutboundResponse,
    owner: u32,
    id: u64,
)
    requires
        finish_step(pre, post, cont, result, out),
        out.res@.ty matches proto::res::TyV::Call(ret) && ret.value == Some(
            ValueV::Ref { owner, id },
        ),
    ensures
        post.pool_entries().contains_key(id),
        post.pool_entries()[id] is Resolved,
{
}

impl Connection {
    /// A fresh session: no requests issued, no slots allocated, an empty
    /// pool with the whole high range free, nothing outstanding, running.
    pub fn new() -> (r: Self)
        ensures
            r.request_cursor() == 0,
            r.object_cursor() == 0,
            r.pool_entries() == Map::<u64, EntryV>::empty(),
            r.pool_expose_cursor() == u64::MAX,
            r.outstanding() == Set::<u64>::empty(),
            r.state() is Running,
    {
        let r = Connection {
            request_iter: 0,
            object_iter: 0,
            pool: Pool::new(),
            outstanding: HashMap::new(),
            state: SessionState::Running,
        };
        proof {
            assert(r.outstanding() =~= Set::<u64>::empty());
        }
        r
    }

    /// The pool this connection owns, for direct use by local callers.
    pub fn pool(&mut self) -> (r: &mut Pool)
        ensures
            *r == old(self).pool_state(),
            final(self).pool_state() == *final(r),
            final(self).request_cursor() == old(self).request_cursor(),
            final(self).object_cursor() == old(self).object_cursor(),
            final(self).outstanding() == old(self).outstanding(),
            final(self).state() == old(self).state(),
    {
        &mut self.pool
    }

    /// Translates a local request into a wire frame (the outbound path).
    ///
    /// Succeeds iff the session is running and no identifier range is
    /// exhausted; exhaustion closes the session. On success the caller is
    /// registered under the returned request id and the frame is ready for
    /// the transport.
    pub fn handle_req(&mut self, msg: req::Req) -> (r: Result<OutboundRequest, ConnectionError>)
        ensures
            match r {
                Ok(out) => {
                    &&& !outbound_refused(*old(self), msg)
                    &&& outbound_step(*old(self), *final(self), msg, out)
                },
                Err(e) => {
                    &&& e == ConnectionError::SessionClosed
                    &&& outbound_refused(*old(self), msg)
                    &&& same_pool(*old(self), *final(self))
                    &&& final(self).request_cursor() == old(self).request_cursor()
                    &&& final(self).object_cursor() == old(self).object_cursor()
                    &&& final(self).outstanding() == old(self).outstanding()
                    &&& final(self).state() == (if old(self).state() is Running {
                        SessionState::Closed
                    } else {
                        old(self).state()
                    })
                },
            },
    {
        match self.state {
            SessionState::Running => (),
            _ => {
                return Err(ConnectionError::SessionClosed);
            },
        }
        if self.request_iter == u64::MAX {
            self.state = SessionState::Closed;
            return Err(ConnectionError::SessionClosed);
        }
        let id = self.request_iter + 1;

        let req = match msg {
            req::Req::Call(c) => {
                if c.store_result && self.object_iter >= HIGH_RANGE_START {
                    self.state = SessionState::Closed;
                    return Err(ConnectionError::SessionClosed);
                }
                let argument: Option<Value> = match c.argument {
                    None => None,
                    Some(LocalValue::Lit(bytes)) => Some(Value::Lit(Lit(bytes))),
                    Some(LocalValue::Actor(h)) => {
                        match self.pool.expose(Expose::new(LocalValue::Actor(h))) {
                            Ok(er) => Some(Value::Ref { owner: 0, id: er.key }),
                            Err(_) => {
                                self.state = SessionState::Closed;
                                return Err(ConnectionError::SessionClosed);
                            },
                        }
                    },
                };
                let to_object_id: Option<u64> = if c.store_result {
                    let t = self.object_iter;
                    self.object_iter = t + 1;
                    Some(t)
                } else {
                    None
                };
                proto::req::Req {
                    id,
                    ty: proto::req::Ty::Call(
                        proto::req::Call {
                            mutable: c.mutable,
                            object_id: c.object_id,
                            method_id: c.method_id,
                            argument,
                            to_object_id,
                        },
                    ),
                }
            },
            req::Req::Free(f) => {
                proto::req::Req {
                    id,
                    ty: proto::req::Ty::Free(proto::req::Free { object_id: f.object_id }),
                }
            },
        };

        self.request_iter = id;
        self.outstanding.insert(id, ());
        proof {
            assert(self.outstanding() =~= old(self).outstanding().insert(id));
        }

        let data = encode_req(&req);
        let frame = encode_msg(&Msg::req(data));
        Ok(OutboundRequest { request_id: id, req, frame })
    }

    /// Decodes one inbound frame and acts on it (the inbound pump).
    ///
    /// A request frame is dispatched against the pool; a response frame is
    /// matched against the outstanding table. A frame that does not decode
    /// is a framing error: fatal, so a running session starts draining.
    pub fn handle_frame(&mut self, frame: &Vec<u8>) -> (r: Result<Inbound, ConnectionError>)
        ensures
            match r {
                Ok(Inbound::Request(step)) => {
                    &&& crate::codec::dec_msg_exact(frame@) matches Some(m)
                    &&& m.dir is Req
                    &&& crate::codec::dec_req_exact(m.data) matches Some(rv)
                    &&& inbound_request_step(*old(self), *final(self), rv, step)
                },
                Ok(Inbound::Response(d)) => {
                    &&& crate::codec::dec_msg_exact(frame@) matches Some(m)
                    &&& m.dir is Res
                    &&& crate::codec::dec_res_exact(m.data) matches Some(rv)
                    &&& inbound_response_step(*old(self), *final(self), rv, d)
                },
                Err(e) => {
                    &&& e == ConnectionError::FramingError
                    &&& match crate::codec::dec_msg_exact(frame@) {
                        None => true,
                        Some(m) => match m.dir {
                            Dir::Req => crate::codec::dec_req_exact(m.data) is None,
                            Dir::Res => crate::codec::dec_res_exact(m.data) is None,
                        },
                    }
                    &&& same_pool(*old(self), *final(self))
                    &&& final(self).request_cursor() == old(self).request_cursor()
                    &&& final(self).object_cursor() == old(self).object_cursor()
                    &&& final(self).outstanding() == old(self).outstanding()
                    &&& final(self).state() == (if old(self).state() is Running {
                        SessionState::Draining
                    } else {
                        old(self).state()
                    })
                },
            },
    {
        let msg = match decode_msg(frame) {
            Some(m) => m,
            None => {
                self.fatal_decode();
                return Err(ConnectionError::FramingError);
            },
        };
        match msg.dir {
            Dir::Req => {
                match decode_req(&msg.data) {
                    Some(req) => Ok(Inbound::Request(self.handle_inbound_request(req))),
                    None => {
                        self.fatal_decode();
                        Err(ConnectionError::FramingError)
                    },
                }
            },
            Dir::Res => {
                match decode_res(&msg.data) {
                    Some(res) => Ok(Inbound::Response(self.handle_inbound_response(res))),
                    None => {
                        self.fatal_decode();
                        Err(ConnectionError::FramingError)
                    },
                }
            },
        }
    }

    /// A fatal decode error: a running session starts draining.
    fn fatal_decode(&mut self)
        ensures
            same_pool(*old(self), *final(self)),
            final(self).request_cursor() == old(self).request_cursor(),
            final(self).object_cursor() == old(self).object_cursor(),
            final(self).outstanding() == old(self).outstanding(),
            final(self).state() == (if old(self).state() is Running {
                SessionState::Draining
            } else {
                old(self).state()
            }),
    {
        match self.state {
            SessionState::Running => {
                self.state = SessionState::Draining;
            },
            _ => (),
        }
    }

    /// Dispatches one decoded inbound request (see [`inbound_request_step`]).
    pub fn handle_inbound_request(&mut self, req: proto::req::Req) -> (step: InboundStep)
        ensures
            inbound_request_step(*old(self), *final(self), req@, step),
    {
        match req.ty {
            proto::req::Ty::Free(f) => {
                let waiters = match self.pool.remove(Remove { key: f.object_id }) {
                    Ok(rr) => rr.waiters,
                    Err(_) => {
                        proof {
                            assert(self.pool_entries() =~= old(self).pool_entries().remove(
                                f.object_id,
                            ));
                        }
                        Vec::new()
                    },
                };
                let res = proto::res::Res { id: req.id, ty: proto::res::Ty::Free };
                let data = encode_res(&res);
                let frame = encode_msg(&Msg::res(data));
                InboundStep::Respond(OutboundResponse { res, frame, waiters })
            },
            proto::req::Ty::Call(c) => {
                let object_id = c.object_id;
                match self.pool.get(Get::new(object_id)) {
                    Err(_) => InboundStep::Respond(self.empty_response(req.id)),
                    Ok(GetOutcome::Pending(w)) => {
                        InboundStep::AwaitTarget {
                            pending: PendingTarget { req_id: req.id, waiter: w, call: c },
                        }
                    },
                    Ok(GetOutcome::Ready(target)) => self.dispatch_target(req.id, c, target),
                }
            },
        }
    }

    /// Resumes an inbound request whose target key has now resolved: the
    /// runtime hands in the value its waiter received, and the request is
    /// dispatched exactly as if the target had been resolved all along.
    pub fn resume_target(&mut self, cont: PendingTarget, value: LocalValue) -> (step: InboundStep)
        ensures
            same_session(*old(self), *final(self)),
            same_pool(*old(self), *final(self)),
            dispatch_step(cont.req_id, cont.call@, value@, step),
    {
        self.dispatch_target(cont.req_id, cont.call, value)
    }

    /// Dispatches a call whose target value is at hand.
    fn dispatch_target(&mut self, req_id: u64, c: proto::req::Call, target: LocalValue) -> (step:
        InboundStep)
        ensures
            same_session(*old(self), *final(self)),
            same_pool(*old(self), *final(self)),
            dispatch_step(req_id, c@, target@, step),
    {
        match target {
            LocalValue::Lit(_) => InboundStep::Respond(self.empty_response(req_id)),
            LocalValue::Actor(handle) => {
                let argument: Option<IncomingValue> = match c.argument {
                    None => None,
                    Some(Value::Lit(lit)) => Some(IncomingValue::Lit(lit.0)),
                    Some(Value::Ref { owner, id }) => Some(IncomingValue::Remote { owner, id }),
                };
                InboundStep::Invoke {
                    handle,
                    mutable: c.mutable,
                    method_id: c.method_id,
                    argument,
                    cont: PendingInvoke { req_id, to_object_id: c.to_object_id },
                }
            },
        }
    }

    /// The framed empty response to request `req_id`.
    fn empty_response(&self, req_id: u64) -> (out: OutboundResponse)
        ensures
            is_response_for(out, empty_return(req_id)),
            out.waiters@ == Seq::<Waiter>::empty(),
    {
        let res = proto::res::Res {
            id: req_id,
            ty: proto::res::Ty::Call(proto::res::Return { value: None }),
        };
        let data = encode_res(&res);
        let frame = encode_msg(&Msg::res(data));
        OutboundResponse { res, frame, waiters: Vec::new() }
    }

    /// Builds the response once the runtime has invoked the object (see
    /// [`finish_step`] for the return-value rules).
    pub fn finish_inbound(&mut self, cont: PendingInvoke, result: Option<LocalValue>) -> (out:
        OutboundResponse)
        ensures
            finish_step(
                *old(self),
                *final(self),
                cont,
                match result {
                    Some(v) => Some(v@),
                    None => None,
                },
                out,
            ),
    {
        let value: Option<Value> = match (cont.to_object_id, result) {
            (Some(t), Some(v)) => {
                match self.pool.insert_resolved(InsertResolved::new(t, v)) {
                    Ok(_) => Some(Value::Ref { owner: 0, id: t }),
                    Err(_) => None,
                }
            },
            (None, Some(LocalValue::Lit(bytes))) => Some(Value::Lit(Lit(bytes))),
            (None, Some(LocalValue::Actor(_))) => None,
            (_, None) => None,
        };
        let res = proto::res::Res {
            id: cont.req_id,
            ty: proto::res::Ty::Call(proto::res::Return { value }),
        };
        let data = encode_res(&res);
        let frame = encode_msg(&Msg::res(data));
        OutboundResponse { res, frame, waiters: Vec::new() }
    }

    /// Matches one decoded response against the outstanding table (see
    /// [`inbound_response_step`]): a match is delivered and evicted; a miss
    /// is dropped without side effect.
    pub fn handle_inbound_response(&mut self, res: proto::res::Res) -> (r: Option<Delivery>)
        ensures
            inbound_response_step(*old(self), *final(self), res@, r),
    {
        match self.outstanding.remove(&res.id) {
            None => {
                proof {
                    assert(self.outstanding() =~= old(self).outstanding());
                }
                None
            },
            Some(_) => {
                proof {
                    assert(self.outstanding() =~= old(self).outstanding().remove(res.id));
                }
                let delivered: res::Res = match res.ty {
                    proto::res::Ty::Free => res::Res::Free(res::Free),
                    proto::res::Ty::Call(ret) => {
                        let value: Option<IncomingValue> = match ret.value {
                            None => None,
                            Some(Value::Lit(lit)) => Some(IncomingValue::Lit(lit.0)),
                            Some(Value::Ref { owner, id }) => Some(
                                IncomingValue::Remote { owner, id },
                            ),
                        };
                        res::Res::Call(res::Return { value })
                    },
                };
                Some(Delivery { request_id: res.id, res: delivered })
            },
        }
    }

    /// The inbound stream ended: a running session starts draining. New
    /// outbound calls are rejected from here on; still-running inbound
    /// requests may complete.
    pub fn on_eof(&mut self)
        ensures
            same_pool(*old(self), *final(self)),
            final(self).request_cursor() == old(self).request_cursor(),
            final(self).object_cursor() == old(self).object_cursor(),
            final(self).outstanding() == old(self).outstanding(),
            final(self).state() == (if old(self).state() is Running {
                SessionState::Draining
            } else {
                old(self).state()
            }),
    {
        self.fatal_decode();
    }

    /// Explicit shutdown: the session closes, and everything still pending
    /// is handed back whole — the runtime owes every outstanding request a
    /// session-closed error and every still-suspended waiter an
    /// `Unresolvable` outcome. No further messages are sent.
    pub fn close(&mut self) -> (t: Teardown)
        ensures
            final(self).state() is Closed,
            final(self).outstanding() == Set::<u64>::empty(),
            final(self).pool_entries() == Map::<u64, EntryV>::empty(),
            final(self).request_cursor() == old(self).request_cursor(),
            final(self).object_cursor() == old(self).object_cursor(),
            t.outstanding@.dom() == old(self).outstanding(),
            entries_view(t.entries@) == old(self).pool_entries(),
    {
        self.state = SessionState::Closed;
        let mut taken: HashMap<u64, ()> = HashMap::new();
        core::mem::swap(&mut self.outstanding, &mut taken);
        let entries = self.pool.close();
        proof {
            assert(self.outstanding() =~= Set::<u64>::empty());
        }
        Teardown { outstanding: taken, entries }
    }
}

} // verus!
