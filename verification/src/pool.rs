//! An asynchronous keyed store whose entries may be unresolved.
//!
//! Keys may be in two states: resolved or unresolved. A `get` of a resolved
//! key returns its value immediately; a `get` of an unresolved key registers
//! a *waiter* and reports it to the caller, which suspends until the key is
//! resolved. `resolve` hands back the full set of registered waiters so the
//! runtime can fan the value out to every one of them exactly once; removal
//! (or pool teardown) hands the waiters back so the runtime can fan out
//! `Unresolvable` instead.
//!
//! The store itself is synchronous and fully verified; suspension and fan-out
//! are the hosting runtime's concern.

use std::collections::HashMap;

use vstd::prelude::*;

use crate::value::{LocalValue, LocalValueV};

verus! {

broadcast use vstd::std_specs::hash::group_hash_axioms;

/// Keys at or above this bound form the high range, allocated by [`Pool::expose`]
/// counting down from the maximum. Keys below it form the low range, allocated
/// by callers counting up from zero. The two ranges never collide.
pub const HIGH_RANGE_START: u64 = 0x8000_0000_0000_0000;

/// Whether a key belongs to the low range (caller-allocated, counting up).
pub open spec fn is_low_key(k: u64) -> bool {
    k < HIGH_RANGE_START
}

/// Whether a key belongs to the high range (expose-allocated, counting down).
pub open spec fn is_high_key(k: u64) -> bool {
    k >= HIGH_RANGE_START
}

/// A ticket for one suspended `get`: the key it waits on and its position
/// among that key's waiters.
#[derive(Debug, Clone, Copy, PartialEq, Eq, Structural)]
pub struct Waiter {
    pub key: u64,
    pub seq: usize,
}

/// One slot of the store: either a set of waiters suspended on the key, or
/// the value the key resolved to.
#[derive(Debug, PartialEq, Eq)]
pub enum Entry {
    Unresolved(Vec<Waiter>),
    Resolved(LocalValue),
}

/// The mathematical model of an [`Entry`].
#[verifier::ext_equal]
pub enum EntryV {
    Unresolved { waiters: Seq<Waiter> },
    Resolved { value: LocalValueV },
}

impl View for Entry {
    type V = EntryV;

    open spec fn view(&self) -> EntryV {
        match self {
            Entry::Unresolved(ws) => EntryV::Unresolved { waiters: ws@ },
            Entry::Resolved(v) => EntryV::Resolved { value: v@ },
        }
    }
}

impl Entry {
    /// The waiters suspended on this entry; empty if it is resolved.
    pub fn take_waiters(self) -> (r: Vec<Waiter>)
        ensures
            self@ matches EntryV::Unresolved { waiters } ==> r@ == waiters,
            self@ is Resolved ==> r@ == Seq::<Waiter>::empty(),
    {
        match self {
            Entry::Unresolved(ws) => ws,
            Entry::Resolved(_) => Vec::new(),
        }
    }
}

/// The model of a store: what every present key is bound to.
pub open spec fn entries_view(m: Map<u64, Entry>) -> Map<u64, EntryV> {
    m.map_values(|e: Entry| e@)
}

/// Asks the store to bind a key with no value yet.
#[derive(Debug, Clone, Copy, PartialEq, Eq, Structural)]
pub struct InsertUnresolved {
    pub key: u64,
}

impl InsertUnresolved {
    pub fn new(key: u64) -> (r: Self)
        ensures
            r.key == key,
    {
        InsertUnresolved { key }
    }
}

/// Nothing to report: the key is now bound, unresolved.
#[derive(Debug)]
pub struct InsertUnresolvedResult;

/// Why an [`InsertUnresolved`] was refused.
#[derive(Debug, Clone, Copy, PartialEq, Eq, Structural)]
pub enum InsertUnresolvedError {
    AlreadyExists,
}

/// Asks the store to fulfill an unresolved key with a value.
#[derive(Debug)]
pub struct Resolve {
    pub key: u64,
    pub value: LocalValue,
}

impl Resolve {
    pub fn new(key: u64, value: LocalValue) -> (r: Self)
        ensures
            r.key == key,
            r.value == value,
    {
        Resolve { key, value }
    }

    pub fn key(&self) -> (r: &u64)
        ensures
            *r == self.key,
    {
        &self.key
    }

    pub fn value(&self) -> (r: &LocalValue)
        ensures
            *r == self.value,
    {
        &self.value
    }

    pub fn value_mut(&mut self) -> (r: &mut LocalValue)
        ensures
            *r == old(self).value,
            final(self).key == old(self).key,
            final(self).value == *final(r),
    {
        &mut self.value
    }

    pub fn take_value(self) -> (r: LocalValue)
        ensures
            r == self.value,
    {
        self.value
    }
}

/// The waiters that were suspended on the key; the runtime owes each of
/// them one clone of the resolved value.
#[derive(Debug, PartialEq, Eq)]
pub struct ResolveResult {
    pub waiters: Vec<Waiter>,
}

/// Why a [`Resolve`] was refused.
#[derive(Debug, Clone, Copy, PartialEq, Eq, Structural)]
pub enum ResolveError {
    NotFound,
    AlreadyResolved,
}

/// Asks the store to bind a value under a fresh high-range key.
#[derive(Debug)]
pub struct Expose {
    pub value: LocalValue,
}

impl Expose {
    pub fn new(value: LocalValue) -> (r: Self)
        ensures
            r.value == value,
    {
        Expose { value }
    }
}

/// The fresh high-range key the value was bound under.
#[derive(Debug, Clone, Copy, PartialEq, Eq, Structural)]
pub struct ExposeResult {
    pub key: u64,
}

/// Why an [`Expose`] was refused.
#[derive(Debug, Clone, Copy, PartialEq, Eq, Structural)]
pub enum ExposeError {
    OutOfKeys,
}

/// Asks the store to bind a key directly to a value.
#[derive(Debug)]
pub struct InsertResolved {
    pub key: u64,
    pub value: LocalValue,
}

impl InsertResolved {
    pub fn new(key: u64, value: LocalValue) -> (r: Self)
        ensures
            r.key == key,
            r.value == value,
    {
        InsertResolved { key, value }
    }

    pub fn key(&self) -> (r: &u64)
        ensures
            *r == self.key,
    {
        &self.key
    }

    pub fn value(&self) -> (r: &LocalValue)
        ensures
            *r == self.value,
    {
        &self.value
    }

    pub fn value_mut(&mut self) -> (r: &mut LocalValue)
        ensures
            *r == old(self).value,
            final(self).key == old(self).key,
            final(self).value == *final(r),
    {
        &mut self.value
    }

    pub fn take_value(self) -> (r: LocalValue)
        ensures
            r == self.value,
    {
        self.value
    }
}

/// Nothing to report: the key is now bound, resolved.
#[derive(Debug)]
pub struct InsertResolvedResult;

/// Why an [`InsertResolved`] was refused.
#[derive(Debug, Clone, Copy, PartialEq, Eq, Structural)]
pub enum InsertResolvedError {
    AlreadyExists,
}

/// Asks the store for the value of a key.
#[derive(Debug, Clone, Copy, PartialEq, Eq, Structural)]
pub struct Get {
    pub key: u64,
}

impl Get {
    pub fn new(key: u64) -> (r: Self)
        ensures
            r.key == key,
    {
        Get { key }
    }

    pub fn key(&self) -> (r: &u64)
        ensures
            *r == self.key,
    {
        &self.key
    }
}

/// What a `get` found: the value, or a waiter ticket to suspend on until
/// the key is resolved.
#[derive(Debug, PartialEq, Eq)]
pub enum GetOutcome {
    Ready(LocalValue),
    Pending(Waiter),
}

/// Why a [`Get`] failed. `NotFound` is reported directly; `Unresolvable` is
/// the outcome the runtime owes a pending waiter whose entry was removed
/// before it resolved.
#[derive(Debug, Clone, Copy, PartialEq, Eq, Structural)]
pub enum GetError {
    NotFound,
    Unresolvable,
}

/// Asks the store to evict a key.
#[derive(Debug, Clone, Copy, PartialEq, Eq, Structural)]
pub struct Remove {
    pub key: u64,
}

/// What an eviction freed: the prior value if the key was resolved, and the
/// waiters that the runtime now owes an `Unresolvable` outcome.
#[derive(Debug, PartialEq, Eq)]
pub struct RemoveResult {
    pub value: Option<LocalValue>,
    pub waiters: Vec<Waiter>,
}

/// Why a [`Remove`] was refused.
#[derive(Debug, Clone, Copy, PartialEq, Eq, Structural)]
pub enum RemoveError {
    NotFound,
}

/// The waiters suspended on key `k`, if it is bound and unresolved.
pub open spec fn waiters_of(m: Map<u64, EntryV>, k: u64) -> Seq<Waiter> {
    if m.contains_key(k) {
        match m[k] {
            EntryV::Unresolved { waiters } => waiters,
            EntryV::Resolved { .. } => Seq::empty(),
        }
    } else {
        Seq::empty()
    }
}

/// Law: a key's waiters are delivered a terminal outcome exactly once. The
/// step that settles an unresolved key — [`Pool::resolve`] (which owes each
/// waiter the value) or [`Pool::remove`] (which owes each an `Unresolvable`
/// outcome) — leaves no waiter behind on that key, so no later step can
/// deliver to them again.
pub proof fn lemma_waiters_delivered_once(
    before: Map<u64, EntryV>,
    after: Map<u64, EntryV>,
    k: u64,
    v: LocalValueV,
)
    requires
        after == before.insert(k, EntryV::Resolved { value: v }) || after == before.remove(k),
    ensures
        waiters_of(after, k) == Seq::<Waiter>::empty(),
{
}

/// Law: the low and high key ranges are disjoint — a key handed out by a
/// caller's low-range counter can never equal one handed out by
/// [`Pool::expose`].
pub proof fn lemma_id_ranges_disjoint(low: u64, high: u64)
    requires
        is_low_key(low),
        is_high_key(high),
    ensures
        low != high,
{
}

/// Law: gets that arrive while a key is unresolved are all notified by the
/// resolve that later fulfills it, each with the resolved value, and no two
/// of them share a ticket.
///
/// The premises quote the contracts involved: each pending [`Pool::get`]
/// hands out a ticket numbered by the waiter count at its arrival and
/// appends it, and [`Pool::resolve`] hands back the whole waiter sequence,
/// owing every element one clone of the value.
pub proof fn lemma_concurrent_gets_all_notified(
    before: Seq<Waiter>,
    k: u64,
    w1: Waiter,
    w2: Waiter,
    notified: Seq<Waiter>,
)
    requires
        before.len() + 1 <= usize::MAX,
        w1 == (Waiter { key: k, seq: before.len() as usize }),
        w2 == (Waiter { key: k, seq: (before.len() + 1) as usize }),
        notified == before.push(w1).push(w2),
    ensures
        notified.contains(w1),
        notified.contains(w2),
        w1 != w2,
{
    assert(notified[before.len() as int] == w1);
    assert(notified[before.len() as int + 1] == w2);
}

/// Law: expose-then-get is faithful on a single peer — the key that
/// [`Pool::expose`] hands out is bound to exactly the exposed value, so a
/// [`Pool::get`] of that key yields that value.
///
/// The premise quotes expose's contract; the conclusion is the state that
/// get's immediate-value case keys on.
pub proof fn lemma_expose_then_get(
    before: Map<u64, EntryV>,
    after: Map<u64, EntryV>,
    k: u64,
    v: LocalValueV,
)
    requires
        after == before.insert(k, EntryV::Resolved { value: v }),
    ensures
        after.contains_key(k),
        after[k] == (EntryV::Resolved { value: v }),
{
}

/// The keyed store. `expose_iter` is the next high-range key to hand out;
/// it starts at the maximum and counts down.
pub struct Pool {
    expose_iter: u64,
    entries: HashMap<u64, Entry>,
}

impl View for Pool {
    type V = Map<u64, EntryV>;

    closed spec fn view(&self) -> Map<u64, EntryV> {
        entries_view(self.entries@)
    }
}

impl Pool {
    /// The next high-range key [`Pool::expose`] would hand out.
    pub closed spec fn expose_cursor(&self) -> u64 {
        self.expose_iter
    }

    /// An empty store, with the whole high range still unallocated.
    pub fn new() -> (r: Self)
        ensures
            r@ == Map::<u64, EntryV>::empty(),
            r.expose_cursor() == u64::MAX,
    {
        let r = Pool { expose_iter: u64::MAX, entries: HashMap::new() };
        proof {
            assert(r@ =~= Map::<u64, EntryV>::empty());
        }
        r
    }

    /// Binds `msg.key` with no value yet; refused if the key is present.
    pub fn insert_unresolved(&mut self, msg: InsertUnresolved) -> (r: Result<
        InsertUnresolvedResult,
        InsertUnresolvedError,
    >)
        ensures
            final(self).expose_cursor() == old(self).expose_cursor(),
            match r {
                Ok(_) => {
                    &&& !old(self)@.contains_key(msg.key)
                    &&& final(self)@ == old(self)@.insert(
                        msg.key,
                        EntryV::Unresolved { waiters: Seq::empty() },
                    )
                },
                Err(e) => {
                    &&& e == InsertUnresolvedError::AlreadyExists
                    &&& old(self)@.contains_key(msg.key)
                    &&& final(self)@ == old(self)@
                },
            },
    {
        if self.entries.contains_key(&msg.key) {
            return Err(InsertUnresolvedError::AlreadyExists);
        }
        self.entries.insert(msg.key, Entry::Unresolved(Vec::new()));
        proof {
            assert(self@ =~= old(self)@.insert(msg.key, EntryV::Unresolved { waiters: Seq::empty() }));
        }
        Ok(InsertUnresolvedResult {})
    }

    /// Fulfills the unresolved key `msg.key` with `msg.value` and reports
    /// every waiter that was suspended on it. Refused if the key is absent
    /// or already resolved; the store is then unchanged.
    pub fn resolve(&mut self, msg: Resolve) -> (r: Result<ResolveResult, ResolveError>)
        ensures
            final(self).expose_cursor() == old(self).expose_cursor(),
            match r {
                Ok(rr) => {
                    &&& old(self)@.contains_key(msg.key)
                    &&& old(self)@[msg.key] matches EntryV::Unresolved { waiters }
                    &&& old(self)@[msg.key] == (EntryV::Unresolved { waiters: rr.waiters@ })
                    &&& final(self)@ == old(self)@.insert(
                        msg.key,
                        EntryV::Resolved { value: msg.value@ },
                    )
                },
                Err(ResolveError::NotFound) => {
                    &&& !old(self)@.contains_key(msg.key)
                    &&& final(self)@ == old(self)@
                },
                Err(ResolveError::AlreadyResolved) => {
                    &&& old(self)@.contains_key(msg.key)
                    &&& old(self)@[msg.key] is Resolved
                    &&& final(self)@ == old(self)@
                },
            },
    {
        match self.entries.remove(&msg.key) {
            None => Err(ResolveError::NotFound),
            Some(Entry::Resolved(prior)) => {
                // Put the prior value back: a key resolves at most once.
                self.entries.insert(msg.key, Entry::Resolved(prior));
                proof {
                    assert(self@ =~= old(self)@);
                }
                Err(ResolveError::AlreadyResolved)
            },
            Some(Entry::Unresolved(ws)) => {
                self.entries.insert(msg.key, Entry::Resolved(msg.value));
                proof {
                    assert(self@ =~= old(self)@.insert(
                        msg.key,
                        EntryV::Resolved { value: msg.value@ },
                    ));
                }
                Ok(ResolveResult { waiters: ws })
            },
        }
    }

    /// Binds `msg.key` directly to `msg.value`; refused if the key is present.
    pub fn insert_resolved(&mut self, msg: InsertResolved) -> (r: Result<
        InsertResolvedResult,
        InsertResolvedError,
    >)
        ensures
            final(self).expose_cursor() == old(self).expose_cursor(),
            match r {
                Ok(_) => {
                    &&& !old(self)@.contains_key(msg.key)
                    &&& final(self)@ == old(self)@.insert(
                        msg.key,
                        EntryV::Resolved { value: msg.value@ },
                    )
                },
                Err(e) => {
                    &&& e == InsertResolvedError::AlreadyExists
                    &&& old(self)@.contains_key(msg.key)
                    &&& final(self)@ == old(self)@
                },
            },
    {
        if self.entries.contains_key(&msg.key) {
            return Err(InsertResolvedError::AlreadyExists);
        }
        self.entries.insert(msg.key, Entry::Resolved(msg.value));
        proof {
            assert(self@ =~= old(self)@.insert(msg.key, EntryV::Resolved { value: msg.value@ }));
        }
        Ok(InsertResolvedResult {})
    }

    /// Binds `msg.value` under a fresh key from the high range, counting
    /// down; refused once the next key would cross into the low range.
    pub fn expose(&mut self, msg: Expose) -> (r: Result<ExposeResult, ExposeError>)
        ensures
            match r {
                Ok(er) => {
                    &&& is_high_key(old(self).expose_cursor())
                    &&& er.key == old(self).expose_cursor()
                    &&& final(self).expose_cursor() == er.key - 1
                    &&& final(self)@ == old(self)@.insert(
                        er.key,
                        EntryV::Resolved { value: msg.value@ },
                    )
                },
                Err(e) => {
                    &&& e == ExposeError::OutOfKeys
                    &&& is_low_key(old(self).expose_cursor())
                    &&& final(self)@ == old(self)@
                    &&& final(self).expose_cursor() == old(self).expose_cursor()
                },
            },
    {
        if self.expose_iter < HIGH_RANGE_START {
            return Err(ExposeError::OutOfKeys);
        }
        let key = self.expose_iter;
        self.expose_iter = self.expose_iter - 1;
        self.entries.insert(key, Entry::Resolved(msg.value));
        proof {
            assert(self@ =~= old(self)@.insert(key, EntryV::Resolved { value: msg.value@ }));
        }
        Ok(ExposeResult { key })
    }

    /// Looks `msg.key` up. A resolved key yields its value at once; an
    /// unresolved key registers and yields a fresh waiter, distinct from
    /// every waiter already registered on the key.
    pub fn get(&mut self, msg: Get) -> (r: Result<GetOutcome, GetError>)
        ensures
            final(self).expose_cursor() == old(self).expose_cursor(),
            match r {
                Ok(GetOutcome::Ready(v)) => {
                    &&& old(self)@.contains_key(msg.key)
                    &&& old(self)@[msg.key] == (EntryV::Resolved { value: v@ })
                    &&& final(self)@ == old(self)@
                },
                Ok(GetOutcome::Pending(w)) => {
                    &&& old(self)@.contains_key(msg.key)
                    &&& old(self)@[msg.key] matches EntryV::Unresolved { waiters }
                    &&& w == (Waiter { key: msg.key, seq: w.seq })
                    &&& old(self)@[msg.key]->Unresolved_waiters.len() == w.seq
                    &&& final(self)@ == old(self)@.insert(
                        msg.key,
                        EntryV::Unresolved {
                            waiters: old(self)@[msg.key]->Unresolved_waiters.push(w),
                        },
                    )
                },
                Err(e) => {
                    &&& e == GetError::NotFound
                    &&& !old(self)@.contains_key(msg.key)
                    &&& final(self)@ == old(self)@
                },
            },
    {
        match self.entries.remove(&msg.key) {
            None => Err(GetError::NotFound),
            Some(Entry::Resolved(v)) => {
                let out = v.clone();
                self.entries.insert(msg.key, Entry::Resolved(v));
                proof {
                    assert(self@ =~= old(self)@);
                }
                Ok(GetOutcome::Ready(out))
            },
            Some(Entry::Unresolved(mut ws)) => {
                let w = Waiter { key: msg.key, seq: ws.len() };
                ws.push(w);
                self.entries.insert(msg.key, Entry::Unresolved(ws));
                proof {
                    assert(self@ =~= old(self)@.insert(
                        msg.key,
                        EntryV::Unresolved {
                            waiters: old(self)@[msg.key]->Unresolved_waiters.push(w),
                        },
                    ));
                }
                Ok(GetOutcome::Pending(w))
            },
        }
    }

    /// Evicts `msg.key`: yields the prior value if it was resolved, else the
    /// waiters that the runtime now owes an `Unresolvable` outcome.
    pub fn remove(&mut self, msg: Remove) -> (r: Result<RemoveResult, RemoveError>)
        ensures
            final(self).expose_cursor() == old(self).expose_cursor(),
            match r {
                Ok(rr) => {
                    &&& old(self)@.contains_key(msg.key)
                    &&& final(self)@ == old(self)@.remove(msg.key)
                    &&& match old(self)@[msg.key] {
                        EntryV::Resolved { value } => {
                            &&& rr.value matches Some(v) && v@ == value
                            &&& rr.waiters@ == Seq::<Waiter>::empty()
                        },
                        EntryV::Unresolved { waiters } => {
                            &&& rr.value is None
                            &&& rr.waiters@ == waiters
                        },
                    }
                },
                Err(e) => {
                    &&& e == RemoveError::NotFound
                    &&& !old(self)@.contains_key(msg.key)
                    &&& final(self)@ == old(self)@
                },
            },
    {
        match self.entries.remove(&msg.key) {
            None => Err(RemoveError::NotFound),
            Some(entry) => {
                proof {
                    assert(self@ =~= old(self)@.remove(msg.key));
                }
                match entry {
                    Entry::Unresolved(ws) => Ok(RemoveResult { value: None, waiters: ws }),
                    Entry::Resolved(v) => Ok(
                        RemoveResult { value: Some(v), waiters: Vec::new() },
                    ),
                }
            },
        }
    }

    /// Tears the store down: every binding is dropped and handed back whole,
    /// so the runtime can fan an `Unresolvable` outcome out to every waiter
    /// still suspended.
    pub fn close(&mut self) -> (r: HashMap<u64, Entry>)
        ensures
            final(self).expose_cursor() == old(self).expose_cursor(),
            final(self)@ == Map::<u64, EntryV>::empty(),
            entries_view(r@) == old(self)@,
    {
        let mut taken: HashMap<u64, Entry> = HashMap::new();
        core::mem::swap(&mut self.entries, &mut taken);
        proof {
            assert(self@ =~= Map::<u64, EntryV>::empty());
        }
        taken
    }
}

} // verus!
