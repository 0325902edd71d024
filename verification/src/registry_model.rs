//! What the registry protocol achieves when the store and the cache carry out
//! every call: a record is read back as written, the cache only ever repeats
//! what the store holds, and so a cached lookup answers as an uncached one.
//!
//! The store is seen as a map from an id to the records stored with it, in
//! the order in which they were stored: it checks no id for duplicates, a
//! lookup finds the first, and an update or delete touches the first only.
//! The cache is seen as a map from an id to a record.

use vstd::prelude::*;
use crate::registry::{
    Phase, RegistryAction, RegistryEvent, RegistryOutcome, RegistryRequest, RegistrySession,
    ServiceRecord, step_spec,
};

verus! {

/// The records of a store, by id, in the order in which they were stored.
pub type Store<S> = Map<Seq<char>, Seq<S>>;

/// A store and a cache: what each holds for each id.
pub type Backing<S> = (Store<S>, Map<Seq<char>, S>);

/// The records that a store holds with the id, first stored first.
pub open spec fn records<S>(store: Store<S>, id: Seq<char>) -> Seq<S> {
    if store.contains_key(id) {
        store[id]
    } else {
        Seq::empty()
    }
}

/// How a store and a cache that never fail and never forget answer a call.
/// An insert adds the record after those with the same id; a lookup finds the
/// first record with the id; an update overwrites the first record with the
/// id (a record that thereby changes its id is taken to come after those
/// already stored with its new id); a delete removes the first record with
/// the id; an update or delete of an id the store lacks changes nothing.
pub open spec fn perform<S: ServiceRecord>(b: Backing<S>, a: RegistryAction<S>) -> (
    Backing<S>,
    RegistryEvent<S>,
) {
    let (store, cache) = b;
    match a {
        RegistryAction::CacheGet(id) => if cache.contains_key(id@) {
            (b, RegistryEvent::CacheHit(cache[id@]))
        } else {
            (b, RegistryEvent::CacheMiss)
        },
        RegistryAction::CachePut(id, r) => ((store, cache.insert(id@, r)), RegistryEvent::CacheWritten),
        RegistryAction::CacheInvalidate(id) => (
            (store, cache.remove(id@)),
            RegistryEvent::CacheWritten,
        ),
        RegistryAction::StoreInsert(r) => (
            (
                store.insert(r.record_id()@, records(store, r.record_id()@).push(r)),
                cache,
            ),
            RegistryEvent::StoreDone,
        ),
        RegistryAction::StoreFind(id) => if records(store, id@).len() > 0 {
            (b, RegistryEvent::StoreFound(records(store, id@)[0]))
        } else {
            (b, RegistryEvent::StoreMissing)
        },
        RegistryAction::StoreUpdate(id, r) => if records(store, id@).len() == 0 {
            (b, RegistryEvent::StoreDone)
        } else if r.record_id()@ == id@ {
            ((store.insert(id@, records(store, id@).update(0, r)), cache), RegistryEvent::StoreDone)
        } else {
            let rest = store.insert(id@, records(store, id@).drop_first());
            (
                (rest.insert(r.record_id()@, records(rest, r.record_id()@).push(r)), cache),
                RegistryEvent::StoreDone,
            )
        },
        RegistryAction::StoreDelete(id) => if records(store, id@).len() == 0 {
            (b, RegistryEvent::StoreDone)
        } else {
            ((store.insert(id@, records(store, id@).drop_first()), cache), RegistryEvent::StoreDone)
        },
        RegistryAction::Finish(_) => (b, RegistryEvent::Begin),
    }
}

/// Runs a session against the store and cache until it answers (or `fuel`
/// calls have been made), giving the store and cache afterwards and the last
/// action.
pub open spec fn drive<S: ServiceRecord>(
    s: RegistrySession<S>,
    b: Backing<S>,
    e: RegistryEvent<S>,
    fuel: nat,
) -> (Backing<S>, RegistryAction<S>)
    decreases fuel,
{
    let (s2, a) = step_spec(s, e);
    if fuel == 0 || a is Finish {
        (b, a)
    } else {
        let (b2, e2) = perform(b, a);
        drive(s2, b2, e2, (fuel - 1) as nat)
    }
}

/// Serves a request from its start: no request needs more than four calls.
pub open spec fn serve<S: ServiceRecord>(req: RegistryRequest<S>, cached: bool, b: Backing<S>) -> (
    Backing<S>,
    RegistryAction<S>,
) {
    drive(RegistrySession { request: req, cached, phase: Phase::Ready }, b, RegistryEvent::Begin, 4)
}

/// The cache holds nothing but the record that a lookup of the store finds
/// for the same id.
pub open spec fn coherent<S>(b: Backing<S>) -> bool {
    forall|id: Seq<char>|
        #[trigger] b.1.contains_key(id) ==> records(b.0, id).len() > 0 && records(b.0, id)[0]
            == b.1[id]
}

/// A write that keeps the cache coherent: an insert of an id that the store
/// does not hold yet, an update of an id that it holds by a record with the
/// same id, or any lookup or delete.
pub open spec fn keeps_cache_coherent<S: ServiceRecord>(
    req: RegistryRequest<S>,
    store: Store<S>,
) -> bool {
    match req {
        RegistryRequest::Insert(r) => records(store, r.record_id()@).len() == 0,
        RegistryRequest::Update(id, r) => records(store, id@).len() > 0 && r.record_id()@ == id@,
        _ => true,
    }
}

/// A record inserted under an id that the store does not hold yet is what a
/// lookup of its id then finds, with a cache or without.
pub proof fn inserted_record_is_found<S: ServiceRecord>(r: S, cached: bool, b: Backing<S>)
    requires
        records(b.0, r.record_id()@).len() == 0,
    ensures
        serve(RegistryRequest::Insert(r), cached, b).1 == RegistryAction::<S>::Finish(
            RegistryOutcome::Written,
        ),
        serve(
            RegistryRequest::Get(r.record_id()),
            cached,
            serve(RegistryRequest::Insert(r), cached, b).0,
        ).1 == RegistryAction::Finish(RegistryOutcome::Found(r)),
{
    reveal_with_fuel(drive, 5);
}

/// A record that replaces the one stored under its own id is what a lookup
/// of the id then finds, with a cache or without.
pub proof fn updated_record_is_found<S: ServiceRecord>(
    id: String,
    r: S,
    cached: bool,
    b: Backing<S>,
)
    requires
        records(b.0, id@).len() > 0,
        r.record_id()@ == id@,
    ensures
        serve(RegistryRequest::Update(id, r), cached, b).1 == RegistryAction::<S>::Finish(
            RegistryOutcome::Written,
        ),
        serve(
            RegistryRequest::Get(id),
            cached,
            serve(RegistryRequest::Update(id, r), cached, b).0,
        ).1 == RegistryAction::Finish(RegistryOutcome::Found(r)),
{
    reveal_with_fuel(drive, 5);
}

/// After a delete of an id that the store held at most one record with, a
/// lookup of the id finds nothing, with a cache or without.
pub proof fn deleted_record_is_gone<S: ServiceRecord>(id: String, cached: bool, b: Backing<S>)
    requires
        records(b.0, id@).len() <= 1,
    ensures
        serve(RegistryRequest::<S>::Delete(id), cached, b).1 == RegistryAction::<S>::Finish(
            RegistryOutcome::Written,
        ),
        serve(
            RegistryRequest::<S>::Get(id),
            cached,
            serve(RegistryRequest::<S>::Delete(id), cached, b).0,
        ).1 == RegistryAction::<S>::Finish(RegistryOutcome::NotFound),
{
    reveal_with_fuel(drive, 5);
}

/// A delete removes only the first record with the id: where the store held
/// more, a lookup then finds the next one, with a cache or without.
pub proof fn delete_uncovers_next_record<S: ServiceRecord>(
    id: String,
    cached: bool,
    b: Backing<S>,
)
    requires
        records(b.0, id@).len() >= 2,
    ensures
        serve(
            RegistryRequest::<S>::Get(id),
            cached,
            serve(RegistryRequest::<S>::Delete(id), cached, b).0,
        ).1 == RegistryAction::<S>::Finish(RegistryOutcome::Found(records(b.0, id@)[1])),
{
    reveal_with_fuel(drive, 5);
}

/// While the cache is coherent, a cached lookup answers exactly what an
/// uncached one does.
pub proof fn cache_is_transparent<S: ServiceRecord>(id: String, b: Backing<S>)
    requires
        coherent(b),
    ensures
        serve(RegistryRequest::<S>::Get(id), true, b).1 == serve(
            RegistryRequest::<S>::Get(id),
            false,
            b,
        ).1,
{
    reveal_with_fuel(drive, 5);
    if b.1.contains_key(id@) {
        assert(records(b.0, id@).len() > 0);
    }
}

/// Every request that keeps the cache coherent leaves it coherent.
pub proof fn cache_stays_coherent<S: ServiceRecord>(req: RegistryRequest<S>, b: Backing<S>)
    requires
        coherent(b),
        keeps_cache_coherent(req, b.0),
    ensures
        coherent(serve(req, true, b).0),
{
    reveal_with_fuel(drive, 5);
    let after: Backing<S> = serve(req, true, b).0;
    assert forall|k: Seq<char>| #[trigger] after.1.contains_key(k) implies records(after.0, k).len()
        > 0 && records(after.0, k)[0] == after.1[k] by {
        if b.1.contains_key(k) {
            assert(records(b.0, k).len() > 0);
        }
    }
}

/// A cache that drops an entry on its own (when it expires, or to make
/// room) stays coherent, so its lookups still answer as uncached ones.
pub proof fn eviction_keeps_cache_transparent<S: ServiceRecord>(
    evicted: Seq<char>,
    id: String,
    b: Backing<S>,
)
    requires
        coherent(b),
    ensures
        coherent((b.0, b.1.remove(evicted))),
        serve(RegistryRequest::<S>::Get(id), true, (b.0, b.1.remove(evicted))).1 == serve(
            RegistryRequest::<S>::Get(id),
            false,
            (b.0, b.1.remove(evicted)),
        ).1,
{
    let after: Backing<S> = (b.0, b.1.remove(evicted));
    assert forall|k: Seq<char>| #[trigger] after.1.contains_key(k) implies records(after.0, k).len()
        > 0 && records(after.0, k)[0] == after.1[k] by {
        assert(b.1.contains_key(k));
    }
    cache_is_transparent(id, after);
}

/// A write that the store refuses is answered at once: the cache is not
/// touched.
pub proof fn refused_write_skips_cache<S: ServiceRecord>(s: RegistrySession<S>)
    requires
        s.phase == Phase::<S>::AwaitStore,
        !(s.request is Get),
    ensures
        step_spec(s, RegistryEvent::StoreFailed).1 == RegistryAction::<S>::Finish(
            RegistryOutcome::WriteFailed,
        ),
{
}

} // verus!
