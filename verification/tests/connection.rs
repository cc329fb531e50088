use boozle::connection::remote::Remote;
use boozle::connection::{req, res, Connection, ConnectionError, Delivery, Inbound, InboundStep};
use boozle::object::{Call, ProxyInfo};
use boozle::pool::{Get, GetOutcome, InsertUnresolved, Resolve};
use boozle::protocol as proto;
use boozle::value::{IncomingValue, Lit, LocalValue, ObjectHandle, Value};

fn call_req(object_id: u64, argument: Option<LocalValue>, store_result: bool) -> req::Req {
    req::Req::Call(req::Call { mutable: false, object_id, method_id: 0, argument, store_result })
}

fn lit(bytes: &[u8]) -> LocalValue {
    LocalValue::lit(bytes.to_vec())
}

#[test]
fn request_ids_strictly_increase() {
    let mut conn = Connection::new();
    let first = conn.handle_req(call_req(1, None, false)).unwrap();
    let second = conn.handle_req(call_req(1, None, false)).unwrap();
    let third = conn
        .handle_req(req::Req::Free(req::Free { object_id: 1 }))
        .unwrap();
    assert_eq!(first.request_id, 1);
    assert_eq!(second.request_id, 2);
    assert_eq!(third.request_id, 3);
    assert_eq!(first.req.id, 1);
    assert_eq!(second.req.id, 2);
    assert_eq!(third.req.id, 3);
}

#[test]
fn store_result_allocates_low_range_slots() {
    let mut conn = Connection::new();
    let first = conn.handle_req(call_req(1, None, true)).unwrap();
    let second = conn.handle_req(call_req(1, None, true)).unwrap();
    let plain = conn.handle_req(call_req(1, None, false)).unwrap();
    let slot = |out: &boozle::connection::OutboundRequest| match &out.req.ty {
        proto::req::Ty::Call(c) => c.to_object_id,
        proto::req::Ty::Free(_) => panic!("expected a call"),
    };
    assert_eq!(slot(&first), Some(0));
    assert_eq!(slot(&second), Some(1));
    assert_eq!(slot(&plain), None);
}

#[test]
fn object_argument_is_exposed_as_reference() {
    let mut conn = Connection::new();
    let handle = ObjectHandle { token: 4 };
    let out = conn
        .handle_req(call_req(1, Some(LocalValue::from_object(handle)), false))
        .unwrap();
    match &out.req.ty {
        proto::req::Ty::Call(c) => {
            assert_eq!(c.argument, Some(Value::Ref { owner: 0, id: u64::MAX }));
        }
        proto::req::Ty::Free(_) => panic!("expected a call"),
    }
    // the object now sits in the sender's pool under the emitted key
    match conn.pool().get(Get::new(u64::MAX)).unwrap() {
        GetOutcome::Ready(LocalValue::Actor(h)) => assert_eq!(h, handle),
        other => panic!("expected the exposed handle, got {:?}", other),
    }
}

#[test]
fn response_matches_outstanding_or_is_dropped() {
    let mut caller = Connection::new();
    let out = caller.handle_req(call_req(1, None, false)).unwrap();

    // answer it with a value
    let answer = proto::res::Res {
        id: out.request_id,
        ty: proto::res::Ty::Call(proto::res::Return {
            value: Some(Value::Lit(Lit(vec![6]))),
        }),
    };
    let frame = boozle::codec::encode_msg(&proto::Msg::res(boozle::codec::encode_res(&answer)));
    match caller.handle_frame(&frame).unwrap() {
        Inbound::Response(Some(Delivery { request_id, res })) => {
            assert_eq!(request_id, out.request_id);
            assert_eq!(
                res,
                res::Res::Call(res::Return { value: Some(IncomingValue::Lit(vec![6])) })
            );
        }
        other => panic!("expected a delivery, got {:?}", other),
    }
    // the same response again matches nothing and is dropped
    match caller.handle_frame(&frame).unwrap() {
        Inbound::Response(None) => (),
        other => panic!("expected a dropped response, got {:?}", other),
    }
}

#[test]
fn unknown_response_dropped_without_side_effect() {
    let mut conn = Connection::new();
    let answer = proto::res::Res { id: 99, ty: proto::res::Ty::Free };
    let frame = boozle::codec::encode_msg(&proto::Msg::res(boozle::codec::encode_res(&answer)));
    match conn.handle_frame(&frame).unwrap() {
        Inbound::Response(None) => (),
        other => panic!("expected a dropped response, got {:?}", other),
    }
    // the session still runs: outbound calls are accepted
    assert!(conn.handle_req(call_req(1, None, false)).is_ok());
}

#[test]
fn call_on_literal_answers_empty() {
    // R issues a Call to an id where L's pool holds a byte payload: L
    // responds with an empty return value.
    let mut local = Connection::new();
    let k = local
        .pool()
        .expose(boozle::pool::Expose::new(lit(&[1])))
        .unwrap()
        .key;

    let mut remote = Connection::new();
    let out = remote.handle_req(call_req(k, None, false)).unwrap();

    match local.handle_frame(&out.frame).unwrap() {
        Inbound::Request(InboundStep::Respond(resp)) => {
            assert_eq!(
                resp.res,
                proto::res::Res {
                    id: out.request_id,
                    ty: proto::res::Ty::Call(proto::res::Return { value: None }),
                }
            );
        }
        other => panic!("expected an immediate response, got {:?}", other),
    }
}

#[test]
fn call_on_unknown_id_answers_empty() {
    let mut local = Connection::new();
    let mut remote = Connection::new();
    let out = remote.handle_req(call_req(12345, None, false)).unwrap();
    match local.handle_frame(&out.frame).unwrap() {
        Inbound::Request(InboundStep::Respond(resp)) => {
            assert_eq!(
                resp.res,
                proto::res::Res {
                    id: out.request_id,
                    ty: proto::res::Ty::Call(proto::res::Return { value: None }),
                }
            );
        }
        other => panic!("expected an immediate response, got {:?}", other),
    }
}

#[test]
fn proxy_round_trip_stores_pipelined_result() {
    // Peer L exposes an object; peer R calls method 0 on it with
    // store_result, handing the bytes of 5u64. The object returns the bytes
    // of 6u64; L binds slot 0 to them and answers with a reference to the
    // slot, matched to R's request id.
    let mut l = Connection::new();
    let o = ObjectHandle { token: 1 };
    let k = l
        .pool()
        .expose(boozle::pool::Expose::new(LocalValue::from_object(o)))
        .unwrap()
        .key;

    let mut r = Connection::new();
    let arg = lit(&5u64.to_le_bytes());
    let out = r.handle_req(call_req(k, Some(arg), true)).unwrap();

    // L dispatches the call to the object
    let (handle, argument, cont) = match l.handle_frame(&out.frame).unwrap() {
        Inbound::Request(InboundStep::Invoke { handle, mutable, method_id, argument, cont }) => {
            assert!(!mutable);
            assert_eq!(method_id, 0);
            (handle, argument, cont)
        }
        other => panic!("expected an invocation, got {:?}", other),
    };
    assert_eq!(handle, o);
    assert_eq!(argument, Some(IncomingValue::Lit(5u64.to_le_bytes().to_vec())));

    // the object computes 5 + 1 and L finishes the request
    let input = match argument {
        Some(IncomingValue::Lit(bytes)) => u64::from_le_bytes(bytes.try_into().unwrap()),
        other => panic!("expected a byte payload, got {:?}", other),
    };
    let result = lit(&(input + 1).to_le_bytes());
    let resp = l.finish_inbound(cont, Some(result));

    // L's pool now binds slot 0 to the bytes of 6u64
    match l.pool().get(Get::new(0)).unwrap() {
        GetOutcome::Ready(v) => assert_eq!(v, lit(&6u64.to_le_bytes())),
        other => panic!("expected the stored result, got {:?}", other),
    }

    // R matches the response to its request id; the value arrives as a
    // reference to the stored slot
    match r.handle_frame(&resp.frame).unwrap() {
        Inbound::Response(Some(Delivery { request_id, res })) => {
            assert_eq!(request_id, out.request_id);
            assert_eq!(
                res,
                res::Res::Call(res::Return {
                    value: Some(IncomingValue::Remote { owner: 0, id: 0 })
                })
            );
        }
        other => panic!("expected a delivery, got {:?}", other),
    }
}

#[test]
fn result_without_slot_travels_inline() {
    let mut l = Connection::new();
    let o = ObjectHandle { token: 1 };
    let k = l
        .pool()
        .expose(boozle::pool::Expose::new(LocalValue::from_object(o)))
        .unwrap()
        .key;

    let mut r = Connection::new();
    let out = r.handle_req(call_req(k, None, false)).unwrap();
    let cont = match l.handle_frame(&out.frame).unwrap() {
        Inbound::Request(InboundStep::Invoke { cont, .. }) => cont,
        other => panic!("expected an invocation, got {:?}", other),
    };
    // a byte payload crosses inline; an object without a slot cannot cross
    let resp = l.finish_inbound(cont, Some(lit(&[6])));
    assert_eq!(
        resp.res,
        proto::res::Res {
            id: out.request_id,
            ty: proto::res::Ty::Call(proto::res::Return {
                value: Some(Value::Lit(Lit(vec![6]))),
            }),
        }
    );

    let out2 = r.handle_req(call_req(k, None, false)).unwrap();
    let cont2 = match l.handle_frame(&out2.frame).unwrap() {
        Inbound::Request(InboundStep::Invoke { cont, .. }) => cont,
        other => panic!("expected an invocation, got {:?}", other),
    };
    let resp2 = l.finish_inbound(cont2, Some(LocalValue::from_object(ObjectHandle { token: 9 })));
    assert_eq!(
        resp2.res,
        proto::res::Res {
            id: out2.request_id,
            ty: proto::res::Ty::Call(proto::res::Return { value: None }),
        }
    );
}

#[test]
fn proxy_drop_frees_remote_entry() {
    // R receives a reference to k, constructs a proxy, drops it: the proxy
    // owes exactly one Free for k, and L's pool no longer contains k.
    let mut l = Connection::new();
    let k = l
        .pool()
        .expose(boozle::pool::Expose::new(LocalValue::from_object(ObjectHandle { token: 1 })))
        .unwrap()
        .key;

    let proxy = Remote::new(k);
    assert_eq!(proxy.proxy_info(), Some(ProxyInfo { object_id: k }));

    let mut r = Connection::new();
    let out = r.handle_req(proxy.free_request()).unwrap();
    match l.handle_frame(&out.frame).unwrap() {
        Inbound::Request(InboundStep::Respond(resp)) => {
            assert_eq!(resp.res, proto::res::Res { id: out.request_id, ty: proto::res::Ty::Free });
            assert!(resp.waiters.is_empty());
        }
        other => panic!("expected an immediate response, got {:?}", other),
    }
    // k is gone
    assert!(l.pool().get(Get::new(k)).is_err());

    // a Free for an unknown id is not an error on the wire
    let out2 = r.handle_req(proxy.free_request()).unwrap();
    match l.handle_frame(&out2.frame).unwrap() {
        Inbound::Request(InboundStep::Respond(resp)) => {
            assert_eq!(resp.res, proto::res::Res { id: out2.request_id, ty: proto::res::Ty::Free });
        }
        other => panic!("expected an immediate response, got {:?}", other),
    }
}

#[test]
fn proxy_requests_always_store_results() {
    let proxy = Remote::new(7);
    match proxy.call_request(Call::new(3, None)) {
        req::Req::Call(c) => {
            assert!(!c.mutable);
            assert!(c.store_result);
            assert_eq!(c.object_id, 7);
            assert_eq!(c.method_id, 3);
        }
        other => panic!("expected a call, got {:?}", other),
    }
    match proxy.call_mut_request(boozle::object::CallMut { method_id: 4, argument: None }) {
        req::Req::Call(c) => {
            assert!(c.mutable);
            assert!(c.store_result);
            assert_eq!(c.object_id, 7);
            assert_eq!(c.method_id, 4);
        }
        other => panic!("expected a call, got {:?}", other),
    }
}

#[test]
fn low_and_high_ranges_stay_disjoint() {
    // One session allocating from both ranges: stored-result slots count up
    // from zero, exposed keys count down from the maximum; no id appears in
    // both.
    let mut conn = Connection::new();
    let mut low = Vec::new();
    let mut high = Vec::new();
    for _ in 0..4 {
        let out = conn.handle_req(call_req(1, None, true)).unwrap();
        match &out.req.ty {
            proto::req::Ty::Call(c) => low.push(c.to_object_id.unwrap()),
            proto::req::Ty::Free(_) => panic!("expected a call"),
        }
        let key = conn
            .pool()
            .expose(boozle::pool::Expose::new(lit(&[0])))
            .unwrap()
            .key;
        high.push(key);
    }
    assert_eq!(low, vec![0, 1, 2, 3]);
    assert_eq!(high, vec![u64::MAX, u64::MAX - 1, u64::MAX - 2, u64::MAX - 3]);
    for l in &low {
        assert!(*l < boozle::pool::HIGH_RANGE_START);
        for h in &high {
            assert!(*h >= boozle::pool::HIGH_RANGE_START);
            assert_ne!(l, h);
        }
    }
}

#[test]
fn empty_result_leaves_pipelined_slot_unbound() {
    // The negative half of pipelined reuse: a stored-result call whose
    // invocation returned nothing binds no slot, so a later use of the slot
    // finds nothing.
    let mut l = Connection::new();
    let k = l
        .pool()
        .expose(boozle::pool::Expose::new(LocalValue::from_object(ObjectHandle { token: 1 })))
        .unwrap()
        .key;
    let mut r = Connection::new();
    let out = r.handle_req(call_req(k, None, true)).unwrap();
    let cont = match l.handle_frame(&out.frame).unwrap() {
        Inbound::Request(InboundStep::Invoke { cont, .. }) => cont,
        other => panic!("expected an invocation, got {:?}", other),
    };
    let resp = l.finish_inbound(cont, None);
    assert_eq!(
        resp.res,
        proto::res::Res {
            id: out.request_id,
            ty: proto::res::Ty::Call(proto::res::Return { value: None }),
        }
    );
    // slot 0 was chosen for the call but never bound
    assert!(l.pool().get(Get::new(0)).is_err());
}

#[test]
fn call_on_unresolved_target_awaits_resolution() {
    let mut l = Connection::new();
    l.pool().insert_unresolved(InsertUnresolved::new(3)).unwrap();

    let mut r = Connection::new();
    let out = r.handle_req(call_req(3, None, false)).unwrap();
    let pending = match l.handle_frame(&out.frame).unwrap() {
        Inbound::Request(InboundStep::AwaitTarget { pending }) => pending,
        other => panic!("expected a suspension, got {:?}", other),
    };
    assert_eq!(pending.req_id, out.request_id);
    assert_eq!(pending.waiter.key, 3);

    // the key resolves to an object; resuming dispatches the call
    let handle = ObjectHandle { token: 8 };
    let rr = l
        .pool()
        .resolve(Resolve::new(3, LocalValue::from_object(handle)))
        .unwrap();
    assert_eq!(rr.waiters, vec![pending.waiter]);
    match l.resume_target(pending, LocalValue::from_object(handle)) {
        InboundStep::Invoke { handle: h, .. } => assert_eq!(h, handle),
        other => panic!("expected an invocation, got {:?}", other),
    }
}

#[test]
fn session_teardown_rejects_everything_pending() {
    // Close a connection with one outstanding call and one suspended get:
    // both observers get terminal outcomes, and no further messages are
    // sent.
    let mut conn = Connection::new();
    let out = conn.handle_req(call_req(1, None, true)).unwrap();
    conn.pool().insert_unresolved(InsertUnresolved::new(2)).unwrap();
    let w = match conn.pool().get(Get::new(2)).unwrap() {
        GetOutcome::Pending(w) => w,
        GetOutcome::Ready(_) => panic!("unresolved key must suspend"),
    };

    let teardown = conn.close();
    // the outstanding caller is owed SessionClosed
    assert!(teardown.outstanding.contains_key(&out.request_id));
    assert_eq!(teardown.outstanding.len(), 1);
    // the suspended get is owed Unresolvable
    let waiters: Vec<_> = teardown
        .entries
        .into_iter()
        .flat_map(|(_, e)| e.take_waiters())
        .collect();
    assert_eq!(waiters, vec![w]);
    // no further messages: new requests are rejected
    let err = conn.handle_req(call_req(1, None, false)).unwrap_err();
    assert_eq!(err, ConnectionError::SessionClosed);
}

#[test]
fn framing_error_drains_session() {
    let mut conn = Connection::new();
    let err = conn.handle_frame(&vec![9, 9, 9]).unwrap_err();
    assert_eq!(err, ConnectionError::FramingError);
    // draining: new outbound calls are rejected
    let err = conn.handle_req(call_req(1, None, false)).unwrap_err();
    assert_eq!(err, ConnectionError::SessionClosed);
}

#[test]
fn eof_drains_session() {
    let mut conn = Connection::new();
    conn.on_eof();
    let err = conn.handle_req(call_req(1, None, false)).unwrap_err();
    assert_eq!(err, ConnectionError::SessionClosed);
}
