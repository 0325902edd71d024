//! The protocol by which a service registry answers a request: which calls it
//! makes to its document store and to its cache, in which order, and what it
//! answers from their replies.
//!
//! The registry itself waits on the store and the cache; here each reply is an
//! event, and each event gives the next call to make or the answer.

use vstd::prelude::*;

verus! {

/// A record that the registry keeps, found by its id.
pub trait ServiceRecord: Sized {
    /// The id that the record is stored and cached under.
    spec fn record_id(&self) -> String;

    /// A copy of the record's id.
    fn id_string(&self) -> (id: String)
        ensures
            id == self.record_id(),
    ;

    /// A copy of the record.
    fn duplicate(&self) -> (copy: Self)
        ensures
            copy == *self,
    ;
}

/// What the registry is asked to do.
pub enum RegistryRequest<S> {
    /// Store a new record (and cache it under its id).
    Insert(S),
    /// Find the record with this id (in the cache first).
    Get(String),
    /// Replace the record with this id (and cache the new one under the id).
    Update(String, S),
    /// Remove the record with this id (and drop it from the cache).
    Delete(String),
}

/// A call that the registry makes, or its answer.
pub enum RegistryAction<S> {
    /// Look the id up in the cache.
    CacheGet(String),
    /// Cache the record under the id.
    CachePut(String, S),
    /// Drop the id from the cache.
    CacheInvalidate(String),
    /// Insert the record into the store.
    StoreInsert(S),
    /// Find the first record in the store with the id.
    StoreFind(String),
    /// Overwrite the first record in the store with the id.
    StoreUpdate(String, S),
    /// Remove the first record in the store with the id.
    StoreDelete(String),
    /// Answer the request.
    Finish(RegistryOutcome<S>),
}

/// How a call of the registry ended.
pub enum RegistryEvent<S> {
    /// The request is about to be served.
    Begin,
    /// The cache holds this record for the id.
    CacheHit(S),
    /// The cache holds nothing for the id.
    CacheMiss,
    /// The cache was written.
    CacheWritten,
    /// The store carried out the write.
    StoreDone,
    /// The store holds this record for the id.
    StoreFound(S),
    /// The store holds nothing for the id.
    StoreMissing,
    /// The store call failed.
    StoreFailed,
}

/// The registry's answer.
pub enum RegistryOutcome<S> {
    /// A write was carried out (`Ok(())`).
    Written,
    /// A write failed in the store (the store's error is returned).
    WriteFailed,
    /// A lookup found this record (`Some`).
    Found(S),
    /// A lookup found nothing, or the store failed (`None`).
    NotFound,
    /// The event did not answer the call last made.
    OutOfOrder,
}

/// Where the registry stands in serving a request.
pub enum Phase<S> {
    /// Nothing has been called yet.
    Ready,
    /// The cache was asked for the id.
    AwaitCache,
    /// The store was called.
    AwaitStore,
    /// The cache is being written; the answer is decided.
    AwaitCacheWrite(RegistryOutcome<S>),
    /// The answer was given.
    Finished,
}

/// One request being served, by a registry with or without a cache.
pub struct RegistrySession<S> {
    pub request: RegistryRequest<S>,
    pub cached: bool,
    pub phase: Phase<S>,
}

/// The session after moving to `phase`, with the call it makes.
pub open spec fn goto<S>(s: RegistrySession<S>, phase: Phase<S>, action: RegistryAction<S>) -> (
    RegistrySession<S>,
    RegistryAction<S>,
) {
    (RegistrySession { request: s.request, cached: s.cached, phase }, action)
}

/// The session after answering `outcome`.
pub open spec fn finish<S>(s: RegistrySession<S>, outcome: RegistryOutcome<S>) -> (
    RegistrySession<S>,
    RegistryAction<S>,
) {
    goto(s, Phase::Finished, RegistryAction::Finish(outcome))
}

/// The first call for a request: the cache for a cached lookup, else the store.
pub open spec fn begin_spec<S>(s: RegistrySession<S>) -> (RegistrySession<S>, RegistryAction<S>) {
    match s.request {
        RegistryRequest::Insert(r) => goto(s, Phase::AwaitStore, RegistryAction::StoreInsert(r)),
        RegistryRequest::Get(id) => if s.cached {
            goto(s, Phase::AwaitCache, RegistryAction::CacheGet(id))
        } else {
            goto(s, Phase::AwaitStore, RegistryAction::StoreFind(id))
        },
        RegistryRequest::Update(id, r) => goto(
            s,
            Phase::AwaitStore,
            RegistryAction::StoreUpdate(id, r),
        ),
        RegistryRequest::Delete(id) => goto(s, Phase::AwaitStore, RegistryAction::StoreDelete(id)),
    }
}

/// What follows the cache's answer to a lookup: a hit is the answer, a miss
/// sends the lookup to the store.
pub open spec fn after_cache_spec<S>(s: RegistrySession<S>, e: RegistryEvent<S>) -> (
    RegistrySession<S>,
    RegistryAction<S>,
) {
    match (s.request, e) {
        (RegistryRequest::Get(_), RegistryEvent::CacheHit(r)) => finish(
            s,
            RegistryOutcome::Found(r),
        ),
        (RegistryRequest::Get(id), RegistryEvent::CacheMiss) => goto(
            s,
            Phase::AwaitStore,
            RegistryAction::StoreFind(id),
        ),
        _ => finish(s, RegistryOutcome::OutOfOrder),
    }
}

/// What follows the store's answer: a failed write is answered at once; a
/// carried-out write, and a record found, are then written to the cache
/// (under the record's id for an insert, under the requested id otherwise)
/// before the answer, where there is a cache; a lookup that finds nothing, or
/// fails, answers that nothing was found.
pub open spec fn after_store_spec<S: ServiceRecord>(s: RegistrySession<S>, e: RegistryEvent<S>) -> (
    RegistrySession<S>,
    RegistryAction<S>,
) {
    match (s.request, e) {
        (RegistryRequest::Get(id), RegistryEvent::StoreFound(r)) => if s.cached {
            goto(
                s,
                Phase::AwaitCacheWrite(RegistryOutcome::Found(r)),
                RegistryAction::CachePut(id, r),
            )
        } else {
            finish(s, RegistryOutcome::Found(r))
        },
        (RegistryRequest::Get(_), RegistryEvent::StoreMissing) => finish(
            s,
            RegistryOutcome::NotFound,
        ),
        (RegistryRequest::Get(_), RegistryEvent::StoreFailed) => finish(
            s,
            RegistryOutcome::NotFound,
        ),
        (RegistryRequest::Insert(r), RegistryEvent::StoreDone) => if s.cached {
            goto(
                s,
                Phase::AwaitCacheWrite(RegistryOutcome::Written),
                RegistryAction::CachePut(r.record_id(), r),
            )
        } else {
            finish(s, RegistryOutcome::Written)
        },
        (RegistryRequest::Update(id, r), RegistryEvent::StoreDone) => if s.cached {
            goto(
                s,
                Phase::AwaitCacheWrite(RegistryOutcome::Written),
                RegistryAction::CachePut(id, r),
            )
        } else {
            finish(s, RegistryOutcome::Written)
        },
        (RegistryRequest::Delete(id), RegistryEvent::StoreDone) => if s.cached {
            goto(
                s,
                Phase::AwaitCacheWrite(RegistryOutcome::Written),
                RegistryAction::CacheInvalidate(id),
            )
        } else {
            finish(s, RegistryOutcome::Written)
        },
        (RegistryRequest::Insert(_), RegistryEvent::StoreFailed) => finish(
            s,
            RegistryOutcome::WriteFailed,
        ),
        (RegistryRequest::Update(_, _), RegistryEvent::StoreFailed) => finish(
            s,
            RegistryOutcome::WriteFailed,
        ),
        (RegistryRequest::Delete(_), RegistryEvent::StoreFailed) => finish(
            s,
            RegistryOutcome::WriteFailed,
        ),
        _ => finish(s, RegistryOutcome::OutOfOrder),
    }
}

/// The next step of a session: its new phase and the call it makes.
pub open spec fn step_spec<S: ServiceRecord>(s: RegistrySession<S>, e: RegistryEvent<S>) -> (
    RegistrySession<S>,
    RegistryAction<S>,
) {
    match s.phase {
        Phase::Ready => match e {
            RegistryEvent::Begin => begin_spec(s),
            _ => finish(s, RegistryOutcome::OutOfOrder),
        },
        Phase::AwaitCache => after_cache_spec(s, e),
        Phase::AwaitStore => after_store_spec(s, e),
        Phase::AwaitCacheWrite(outcome) => match e {
            RegistryEvent::CacheWritten => finish(s, outcome),
            _ => finish(s, RegistryOutcome::OutOfOrder),
        },
        Phase::Finished => finish(s, RegistryOutcome::OutOfOrder),
    }
}


impl<S: ServiceRecord> RegistrySession<S> {
    /// A session that has not yet made a call.
    pub fn new(request: RegistryRequest<S>, cached: bool) -> (s: Self)
        ensures
            s.request == request,
            s.cached == cached,
            s.phase == Phase::<S>::Ready,
    {
        RegistrySession { request, cached, phase: Phase::Ready }
    }

    /// Takes the answer to the last call (or `Begin`) and gives the next call,
    /// or the answer to the request.
    pub fn step(&mut self, event: RegistryEvent<S>) -> (action: RegistryAction<S>)
        ensures
            (*final(self), action) == step_spec(*old(self), event),
    {
        let mut phase = Phase::Finished;
        core::mem::swap(&mut phase, &mut self.phase);
        match phase {
            Phase::Ready => match event {
                RegistryEvent::Begin => self.begin(),
                _ => RegistryAction::Finish(RegistryOutcome::OutOfOrder),
            },
            Phase::AwaitCache => self.after_cache(event),
            Phase::AwaitStore => self.after_store(event),
            Phase::AwaitCacheWrite(outcome) => match event {
                RegistryEvent::CacheWritten => RegistryAction::Finish(outcome),
                _ => RegistryAction::Finish(RegistryOutcome::OutOfOrder),
            },
            Phase::Finished => RegistryAction::Finish(RegistryOutcome::OutOfOrder),
        }
    }

    fn begin(&mut self) -> (action: RegistryAction<S>)
        requires
            old(self).phase == Phase::<S>::Finished,
        ensures
            (*final(self), action) == begin_spec(*old(self)),
    {
        match &self.request {
            RegistryRequest::Insert(r) => {
                self.phase = Phase::AwaitStore;
                RegistryAction::StoreInsert(r.duplicate())
            },
            RegistryRequest::Get(id) => {
                if self.cached {
                    self.phase = Phase::AwaitCache;
                    RegistryAction::CacheGet(id.clone())
                } else {
                    self.phase = Phase::AwaitStore;
                    RegistryAction::StoreFind(id.clone())
                }
            },
            RegistryRequest::Update(id, r) => {
                self.phase = Phase::AwaitStore;
                RegistryAction::StoreUpdate(id.clone(), r.duplicate())
            },
            RegistryRequest::Delete(id) => {
                self.phase = Phase::AwaitStore;
                RegistryAction::StoreDelete(id.clone())
            },
        }
    }

    fn after_cache(&mut self, event: RegistryEvent<S>) -> (action: RegistryAction<S>)
        requires
            old(self).phase == Phase::<S>::Finished,
        ensures
            (*final(self), action) == after_cache_spec(*old(self), event),
    {
        match &self.request {
            RegistryRequest::Get(id) => match event {
                RegistryEvent::CacheHit(r) => RegistryAction::Finish(RegistryOutcome::Found(r)),
                RegistryEvent::CacheMiss => {
                    self.phase = Phase::AwaitStore;
                    RegistryAction::StoreFind(id.clone())
                },
                _ => RegistryAction::Finish(RegistryOutcome::OutOfOrder),
            },
            _ => RegistryAction::Finish(RegistryOutcome::OutOfOrder),
        }
    }

    fn after_store(&mut self, event: RegistryEvent<S>) -> (action: RegistryAction<S>)
        requires
            old(self).phase == Phase::<S>::Finished,
        ensures
            (*final(self), action) == after_store_spec(*old(self), event),
    {
        let cached: bool = self.cached;
        match &self.request {
            RegistryRequest::Get(id) => match event {
                RegistryEvent::StoreFound(r) => {
                    if cached {
                        let copy = r.duplicate();
                        self.phase = Phase::AwaitCacheWrite(RegistryOutcome::Found(copy));
                        RegistryAction::CachePut(id.clone(), r)
                    } else {
                        RegistryAction::Finish(RegistryOutcome::Found(r))
                    }
                },
                RegistryEvent::StoreMissing => RegistryAction::Finish(RegistryOutcome::NotFound),
                RegistryEvent::StoreFailed => RegistryAction::Finish(RegistryOutcome::NotFound),
                _ => RegistryAction::Finish(RegistryOutcome::OutOfOrder),
            },
            RegistryRequest::Insert(r) => match event {
                RegistryEvent::StoreDone => {
                    if cached {
                        let action = RegistryAction::CachePut(r.id_string(), r.duplicate());
                        self.phase = Phase::AwaitCacheWrite(RegistryOutcome::Written);
                        action
                    } else {
                        RegistryAction::Finish(RegistryOutcome::Written)
                    }
                },
                RegistryEvent::StoreFailed => RegistryAction::Finish(RegistryOutcome::WriteFailed),
                _ => RegistryAction::Finish(RegistryOutcome::OutOfOrder),
            },
            RegistryRequest::Update(id, r) => match event {
                RegistryEvent::StoreDone => {
                    if cached {
                        let action = RegistryAction::CachePut(id.clone(), r.duplicate());
                        self.phase = Phase::AwaitCacheWrite(RegistryOutcome::Written);
                        action
                    } else {
                        RegistryAction::Finish(RegistryOutcome::Written)
                    }
                },
                RegistryEvent::StoreFailed => RegistryAction::Finish(RegistryOutcome::WriteFailed),
                _ => RegistryAction::Finish(RegistryOutcome::OutOfOrder),
            },
            RegistryRequest::Delete(id) => match event {
                RegistryEvent::StoreDone => {
                    if cached {
                        let action = RegistryAction::CacheInvalidate(id.clone());
                        self.phase = Phase::AwaitCacheWrite(RegistryOutcome::Written);
                        action
                    } else {
                        RegistryAction::Finish(RegistryOutcome::Written)
                    }
                },
                RegistryEvent::StoreFailed => RegistryAction::Finish(RegistryOutcome::WriteFailed),
                _ => RegistryAction::Finish(RegistryOutcome::OutOfOrder),
            },
        }
    }
}

} // verus!
