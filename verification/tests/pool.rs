use boozle::pool::{
    Expose, Get, GetError, GetOutcome, InsertResolved, InsertResolvedError, InsertUnresolved,
    InsertUnresolvedError, Pool, Remove, RemoveError, Resolve, ResolveError, Waiter,
    HIGH_RANGE_START,
};
use boozle::value::{LocalValue, ObjectHandle};

fn lit(bytes: &[u8]) -> LocalValue {
    LocalValue::lit(bytes.to_vec())
}

#[test]
fn insert_unresolved_then_resolve_delivers() {
    let mut pool = Pool::new();
    pool.insert_unresolved(InsertUnresolved::new(1)).unwrap();
    let rr = pool.resolve(Resolve::new(1, lit(&[9]))).unwrap();
    assert!(rr.waiters.is_empty());
    match pool.get(Get::new(1)).unwrap() {
        GetOutcome::Ready(v) => assert_eq!(v, lit(&[9])),
        GetOutcome::Pending(_) => panic!("resolved key must be ready"),
    }
}

#[test]
fn double_resolve_rejected() {
    // insert-unresolved(1); resolve(1, v1) -> ok; resolve(1, v2) ->
    // AlreadyResolved; get(1) -> v1.
    let mut pool = Pool::new();
    pool.insert_unresolved(InsertUnresolved::new(1)).unwrap();
    pool.resolve(Resolve::new(1, lit(&[1]))).unwrap();
    let err = pool.resolve(Resolve::new(1, lit(&[2]))).unwrap_err();
    assert_eq!(err, ResolveError::AlreadyResolved);
    match pool.get(Get::new(1)).unwrap() {
        GetOutcome::Ready(v) => assert_eq!(v, lit(&[1])),
        GetOutcome::Pending(_) => panic!("resolved key must be ready"),
    }
}

#[test]
fn unresolved_get_races_resolve() {
    // Three concurrent gets on unresolved key 7, then resolve(7, [0x42]):
    // all three waiters are notified, and the key reads back [0x42].
    let mut pool = Pool::new();
    pool.insert_unresolved(InsertUnresolved::new(7)).unwrap();
    let mut waiters = Vec::new();
    for expected_seq in 0..3usize {
        match pool.get(Get::new(7)).unwrap() {
            GetOutcome::Pending(w) => {
                assert_eq!(w, Waiter { key: 7, seq: expected_seq });
                waiters.push(w);
            }
            GetOutcome::Ready(_) => panic!("unresolved key must suspend"),
        }
    }
    let rr = pool.resolve(Resolve::new(7, lit(&[0x42]))).unwrap();
    assert_eq!(rr.waiters, waiters);
    for _ in 0..3 {
        match pool.get(Get::new(7)).unwrap() {
            GetOutcome::Ready(v) => assert_eq!(v, lit(&[0x42])),
            GetOutcome::Pending(_) => panic!("resolved key must be ready"),
        }
    }
}

#[test]
fn insert_unresolved_duplicate_rejected() {
    let mut pool = Pool::new();
    pool.insert_unresolved(InsertUnresolved::new(3)).unwrap();
    let err = pool.insert_unresolved(InsertUnresolved::new(3)).unwrap_err();
    assert_eq!(err, InsertUnresolvedError::AlreadyExists);
}

#[test]
fn insert_resolved_duplicate_rejected() {
    let mut pool = Pool::new();
    pool.insert_resolved(InsertResolved::new(4, lit(&[1]))).unwrap();
    let err = pool
        .insert_resolved(InsertResolved::new(4, lit(&[2])))
        .unwrap_err();
    assert_eq!(err, InsertResolvedError::AlreadyExists);
}

#[test]
fn resolve_missing_key_not_found() {
    let mut pool = Pool::new();
    let err = pool.resolve(Resolve::new(8, lit(&[1]))).unwrap_err();
    assert_eq!(err, ResolveError::NotFound);
    // and the failed resolve left nothing behind
    let err = pool.get(Get::new(8)).unwrap_err();
    assert_eq!(err, GetError::NotFound);
}

#[test]
fn get_missing_key_not_found() {
    let mut pool = Pool::new();
    let err = pool.get(Get::new(5)).unwrap_err();
    assert_eq!(err, GetError::NotFound);
}

#[test]
fn expose_then_get_round_trips() {
    // k = expose(v); get(k) == v — and keys come from the top of the high
    // range, counting down.
    let mut pool = Pool::new();
    let k = pool.expose(Expose::new(lit(&[1, 2, 3]))).unwrap().key;
    assert_eq!(k, u64::MAX);
    match pool.get(Get::new(k)).unwrap() {
        GetOutcome::Ready(v) => assert_eq!(v, lit(&[1, 2, 3])),
        GetOutcome::Pending(_) => panic!("exposed key must be ready"),
    }
    let k2 = pool.expose(Expose::new(lit(&[4]))).unwrap().key;
    assert_eq!(k2, u64::MAX - 1);
    assert!(k2 >= HIGH_RANGE_START);
}

#[test]
fn expose_accepts_object_handles() {
    let mut pool = Pool::new();
    let handle = ObjectHandle { token: 17 };
    let k = pool
        .expose(Expose::new(LocalValue::from_object(handle)))
        .unwrap()
        .key;
    match pool.get(Get::new(k)).unwrap() {
        GetOutcome::Ready(LocalValue::Actor(h)) => assert_eq!(h, handle),
        other => panic!("expected the exposed handle, got {:?}", other),
    }
}

#[test]
fn remove_resolved_returns_value() {
    let mut pool = Pool::new();
    pool.insert_resolved(InsertResolved::new(2, lit(&[7]))).unwrap();
    let rr = pool.remove(Remove { key: 2 }).unwrap();
    assert_eq!(rr.value, Some(lit(&[7])));
    assert!(rr.waiters.is_empty());
    assert_eq!(pool.get(Get::new(2)).unwrap_err(), GetError::NotFound);
}

#[test]
fn remove_unresolved_returns_waiters() {
    let mut pool = Pool::new();
    pool.insert_unresolved(InsertUnresolved::new(9)).unwrap();
    let w = match pool.get(Get::new(9)).unwrap() {
        GetOutcome::Pending(w) => w,
        GetOutcome::Ready(_) => panic!("unresolved key must suspend"),
    };
    let rr = pool.remove(Remove { key: 9 }).unwrap();
    assert_eq!(rr.value, None);
    assert_eq!(rr.waiters, vec![w]);
    assert_eq!(pool.get(Get::new(9)).unwrap_err(), GetError::NotFound);
}

#[test]
fn remove_missing_key_not_found() {
    let mut pool = Pool::new();
    assert_eq!(pool.remove(Remove { key: 1 }).unwrap_err(), RemoveError::NotFound);
}

#[test]
fn close_hands_back_every_binding() {
    let mut pool = Pool::new();
    pool.insert_resolved(InsertResolved::new(1, lit(&[1]))).unwrap();
    pool.insert_unresolved(InsertUnresolved::new(2)).unwrap();
    let w = match pool.get(Get::new(2)).unwrap() {
        GetOutcome::Pending(w) => w,
        GetOutcome::Ready(_) => panic!("unresolved key must suspend"),
    };
    let entries = pool.close();
    assert_eq!(entries.len(), 2);
    let unresolved = entries.into_iter().find(|(k, _)| *k == 2).unwrap().1;
    assert_eq!(unresolved.take_waiters(), vec![w]);
    // the store is empty afterwards
    assert_eq!(pool.get(Get::new(1)).unwrap_err(), GetError::NotFound);
    assert_eq!(pool.get(Get::new(2)).unwrap_err(), GetError::NotFound);
}

#[test]
fn message_accessors() {
    let mut r = Resolve::new(5, lit(&[1]));
    assert_eq!(*r.key(), 5);
    assert_eq!(*r.value(), lit(&[1]));
    *r.value_mut() = lit(&[2]);
    assert_eq!(r.take_value(), lit(&[2]));

    let mut ir = InsertResolved::new(6, lit(&[3]));
    assert_eq!(*ir.key(), 6);
    assert_eq!(*ir.value(), lit(&[3]));
    *ir.value_mut() = lit(&[4]);
    assert_eq!(ir.take_value(), lit(&[4]));

    let g = Get::new(7);
    assert_eq!(*g.key(), 7);
}
