//! Caching of queue lookups in process: a read-through cache of queue
//! details and a cache of queue names, both bounded in-process caches.

use vstd::prelude::*;

use crate::application::CreateQueueOutcome;
use crate::memory_cache::{
    after_insert, cached_value, keys_distinct, lemma_entry_for_without, lemma_inserted_value_lives_for_its_ttl,
    lemma_insert_keeps_or_evicts_others, entry_for, without_key, CacheEntryView, MemoryCache, MemoryCachePolicy,
};
use crate::queue::{name_bytes, Queue, QueueDetails, QueueDetailsView};

verus! {

/// The weight of a cached entry whose text is `text_len` bytes long: the
/// fixed footprint of an entry plus its text, capped at `u32::MAX`.
pub open spec fn entry_weight(footprint_bytes: u64, text_len: nat) -> u32 {
    if footprint_bytes + text_len <= u32::MAX {
        (footprint_bytes + text_len) as u32
    } else {
        u32::MAX
    }
}

/// Weighs an entry whose text is `text`.
pub fn weigh_entry(footprint_bytes: u64, text: &str) -> (r: u32)
    ensures
        r == entry_weight(footprint_bytes, name_bytes(text@).len()),
{
    let len = text.as_bytes().len();
    if (footprint_bytes as u128) + (len as u128) <= 4_294_967_295u128 {
        (footprint_bytes + len as u64) as u32
    } else {
        4_294_967_295u32
    }
}

/// The weight of a queue's cached details.
pub open spec fn details_weight(footprint_bytes: u64, d: QueueDetailsView) -> u32 {
    entry_weight(footprint_bytes, name_bytes(d.name).len())
}

/// The details cache after a load through it at time `now`: a found queue is
/// inserted, a missing one leaves the cache as it was.
pub open spec fn after_load(
    c: Seq<CacheEntryView<QueueDetailsView>>,
    policy: MemoryCachePolicy,
    footprint_bytes: u64,
    queue_id: u128,
    loaded: Option<QueueDetailsView>,
    now: u64,
) -> Seq<CacheEntryView<QueueDetailsView>> {
    match loaded {
        Some(d) => after_insert(c, policy, queue_id, d, now, details_weight(footprint_bytes, d)),
        None => c,
    }
}

/// The details cache after the repository reported on storing a new queue.
pub open spec fn after_create(
    c: Seq<CacheEntryView<QueueDetailsView>>,
    policy: MemoryCachePolicy,
    footprint_bytes: u64,
    queue: QueueDetailsView,
    outcome: CreateQueueOutcome,
    now: u64,
) -> Seq<CacheEntryView<QueueDetailsView>> {
    match outcome {
        CreateQueueOutcome::Created => after_insert(c, policy, queue.id, queue, now, details_weight(footprint_bytes, queue)),
        CreateQueueOutcome::AlreadyExists => c,
    }
}

/// A queue repository decorated with an in-process cache of queue details,
/// keyed by queue identifier. Reads go through to the decorated repository on
/// a miss; only found queues are kept, each for the policy's time-to-live.
pub struct CachedQueueRepository<R> {
    source: R,
    cache: MemoryCache<QueueDetails>,
    footprint_bytes: u64,
}

impl<R> View for CachedQueueRepository<R> {
    type V = Seq<CacheEntryView<QueueDetailsView>>;

    closed spec fn view(&self) -> Seq<CacheEntryView<QueueDetailsView>> {
        self.cache@
    }
}

impl<R> CachedQueueRepository<R> {
    pub closed spec fn spec_source(&self) -> R {
        self.source
    }

    pub closed spec fn spec_policy(&self) -> MemoryCachePolicy {
        self.cache.spec_policy()
    }

    /// The fixed footprint, in bytes, counted for each cached entry besides its name.
    pub closed spec fn spec_footprint(&self) -> u64 {
        self.footprint_bytes
    }

    pub closed spec fn wf(&self) -> bool {
        self.cache.wf()
    }

    /// Decorates `source` with an empty cache with the given limits; each
    /// entry weighs `footprint_bytes` plus the bytes of the queue's name.
    pub fn new(source: R, policy: MemoryCachePolicy, footprint_bytes: u64) -> (r: Self)
        ensures
            r.wf(),
            r@ == Seq::<CacheEntryView<QueueDetailsView>>::empty(),
            r.spec_source() == source,
            r.spec_policy() == policy,
            r.spec_footprint() == footprint_bytes,
    {
        CachedQueueRepository { source, cache: MemoryCache::new(policy), footprint_bytes }
    }

    /// The decorated repository.
    pub fn source(&self) -> (r: &R)
        ensures
            *r == self.spec_source(),
    {
        &self.source
    }

    /// The cached details of a queue at time `now`; `None` is a miss, to be
    /// loaded from the repository.
    pub fn lookup(&self, queue_id: u128, now: u64) -> (r: Option<QueueDetails>)
        ensures
            match cached_value(self@, queue_id, now, self.spec_policy()) {
                Some(v) => r matches Some(d) && d@ == v,
                None => r is None,
            },
    {
        match self.cache.get(queue_id, now) {
            Some(d) => Some(d.duplicate()),
            None => None,
        }
    }

    /// Takes what the repository loaded after a miss and hands it back; a
    /// found queue is kept for later lookups under `queue_id`.
    pub fn complete_load<E>(&mut self, queue_id: u128, loaded: Result<Option<QueueDetails>, E>, now: u64) -> (r: Result<Option<QueueDetails>, E>)
        requires
            old(self).wf(),
        ensures
            final(self).wf(),
            final(self).spec_source() == old(self).spec_source(),
            final(self).spec_policy() == old(self).spec_policy(),
            final(self).spec_footprint() == old(self).spec_footprint(),
            match loaded {
                Ok(Some(d)) => r matches Ok(Some(x)) && x@ == d@
                    && final(self)@ == after_load(old(self)@, old(self).spec_policy(), old(self).spec_footprint(), queue_id, Some(d@), now),
                Ok(None) => r matches Ok(None) && final(self)@ == old(self)@,
                Err(e) => r == Err::<Option<QueueDetails>, E>(e) && final(self)@ == old(self)@,
            },
    {
        match loaded {
            Ok(Some(d)) => {
                let copy = d.duplicate();
                let weight = weigh_entry(self.footprint_bytes, d.name());
                self.cache.insert(queue_id, d, now, weight);
                Ok(Some(copy))
            },
            Ok(None) => Ok(None),
            Err(e) => Err(e),
        }
    }

    /// After the repository reported on storing `queue` at time `now`: a
    /// created queue is cached under its identifier; a conflicting one is not.
    pub fn record_created(&mut self, queue: &Queue, outcome: CreateQueueOutcome, now: u64)
        requires
            old(self).wf(),
        ensures
            final(self).wf(),
            final(self)@ == after_create(old(self)@, old(self).spec_policy(), old(self).spec_footprint(), queue@, outcome, now),
            final(self).spec_source() == old(self).spec_source(),
            final(self).spec_policy() == old(self).spec_policy(),
            final(self).spec_footprint() == old(self).spec_footprint(),
    {
        match outcome {
            CreateQueueOutcome::Created => {
                let weight = weigh_entry(self.footprint_bytes, queue.name());
                self.cache.insert(queue.id(), queue.details(), now, weight);
            },
            CreateQueueOutcome::AlreadyExists => {},
        }
    }

    /// Forgets the cached details of a queue; the next lookup misses.
    pub fn invalidate(&mut self, queue_id: u128)
        requires
            old(self).wf(),
        ensures
            final(self).wf(),
            final(self)@ == without_key(old(self)@, queue_id),
            final(self).spec_source() == old(self).spec_source(),
            final(self).spec_policy() == old(self).spec_policy(),
            final(self).spec_footprint() == old(self).spec_footprint(),
    {
        self.cache.invalidate(queue_id);
    }
}

/// Read-through and reuse: once a found queue has been loaded through the
/// cache, looking it up again before its time-to-live runs out is served from
/// the cache with the loaded details; from then on it is a miss again. A queue
/// too heavy for the policy is never kept.
pub proof fn lemma_loaded_details_are_reused(
    c: Seq<CacheEntryView<QueueDetailsView>>,
    policy: MemoryCachePolicy,
    footprint_bytes: u64,
    queue_id: u128,
    loaded: QueueDetailsView,
    now: u64,
    later: u64,
)
    ensures
        policy.max_entries >= 1 && details_weight(footprint_bytes, loaded) <= policy.max_weight_bytes
            && later < now + policy.time_to_live_millis
            ==> cached_value(after_load(c, policy, footprint_bytes, queue_id, Some(loaded), now), queue_id, later, policy) == Some(loaded),
        later >= now + policy.time_to_live_millis
            ==> cached_value(after_load(c, policy, footprint_bytes, queue_id, Some(loaded), now), queue_id, later, policy) is None,
{
    lemma_inserted_value_lives_for_its_ttl(c, policy, queue_id, loaded, now, details_weight(footprint_bytes, loaded), later);
}

/// A queue the repository does not know is not cached: the next lookup reads
/// through again.
pub proof fn lemma_missing_queue_is_not_cached(
    c: Seq<CacheEntryView<QueueDetailsView>>,
    policy: MemoryCachePolicy,
    footprint_bytes: u64,
    queue_id: u128,
    now: u64,
)
    ensures
        after_load(c, policy, footprint_bytes, queue_id, None, now) == c,
{
}

/// The cache is populated only after a successful creation: a created queue
/// that fits the policy is then served from the cache for its time-to-live,
/// while a conflict leaves the cache as it was.
pub proof fn lemma_only_created_queues_are_cached(
    c: Seq<CacheEntryView<QueueDetailsView>>,
    policy: MemoryCachePolicy,
    footprint_bytes: u64,
    queue: QueueDetailsView,
    now: u64,
    later: u64,
)
    ensures
        policy.max_entries >= 1 && details_weight(footprint_bytes, queue) <= policy.max_weight_bytes
            && later < now + policy.time_to_live_millis
            ==> cached_value(after_create(c, policy, footprint_bytes, queue, CreateQueueOutcome::Created, now), queue.id, later, policy) == Some(queue),
        after_create(c, policy, footprint_bytes, queue, CreateQueueOutcome::AlreadyExists, now) == c,
{
    lemma_inserted_value_lives_for_its_ttl(c, policy, queue.id, queue, now, details_weight(footprint_bytes, queue), later);
}

/// Invalidation forces the next read of that queue through to the repository
/// and leaves every other cached queue as it was.
pub proof fn lemma_invalidation_is_targeted(c: Seq<CacheEntryView<QueueDetailsView>>, queue_id: u128, other: u128)
    requires
        other != queue_id,
    ensures
        entry_for(without_key(c, queue_id), queue_id) is None,
        entry_for(without_key(c, queue_id), other) == entry_for(c, other),
{
    lemma_entry_for_without(c, queue_id, other);
}

/// Caching one queue never alters what is cached for another: that entry
/// stays as it was, or is evicted to make room.
pub proof fn lemma_loading_keeps_or_evicts_other_queues(
    c: Seq<CacheEntryView<QueueDetailsView>>,
    policy: MemoryCachePolicy,
    footprint_bytes: u64,
    queue_id: u128,
    loaded: QueueDetailsView,
    now: u64,
    other: u128,
)
    requires
        keys_distinct(c),
        other != queue_id,
    ensures
        entry_for(after_load(c, policy, footprint_bytes, queue_id, Some(loaded), now), other) is None
            || entry_for(after_load(c, policy, footprint_bytes, queue_id, Some(loaded), now), other) == entry_for(c, other),
{
    lemma_insert_keeps_or_evicts_others(c, policy, queue_id, loaded, now, details_weight(footprint_bytes, loaded), other);
}

/// An in-process cache of queue names, keyed by queue identifier.
pub struct QueueNameCache {
    cache: MemoryCache<String>,
    footprint_bytes: u64,
}

impl View for QueueNameCache {
    type V = Seq<CacheEntryView<Seq<char>>>;

    closed spec fn view(&self) -> Seq<CacheEntryView<Seq<char>>> {
        self.cache@
    }
}

impl QueueNameCache {
    pub closed spec fn spec_policy(&self) -> MemoryCachePolicy {
        self.cache.spec_policy()
    }

    pub closed spec fn spec_footprint(&self) -> u64 {
        self.footprint_bytes
    }

    pub closed spec fn wf(&self) -> bool {
        self.cache.wf()
    }

    /// An empty cache with the given limits; each entry weighs
    /// `footprint_bytes` plus the bytes of the name.
    pub fn new(policy: MemoryCachePolicy, footprint_bytes: u64) -> (r: Self)
        ensures
            r.wf(),
            r@ == Seq::<CacheEntryView<Seq<char>>>::empty(),
            r.spec_policy() == policy,
            r.spec_footprint() == footprint_bytes,
    {
        QueueNameCache { cache: MemoryCache::new(policy), footprint_bytes }
    }

    /// The cached name of a queue at time `now`; `None` is a miss.
    pub fn lookup(&self, queue_id: u128, now: u64) -> (r: Option<String>)
        ensures
            match cached_value(self@, queue_id, now, self.spec_policy()) {
                Some(v) => r matches Some(n) && n@ == v,
                None => r is None,
            },
    {
        match self.cache.get(queue_id, now) {
            Some(n) => Some(n.clone()),
            None => None,
        }
    }

    fn store(&mut self, queue_id: u128, name: String, now: u64)
        requires
            old(self).wf(),
        ensures
            final(self).wf(),
            final(self)@ == after_insert(old(self)@, old(self).spec_policy(), queue_id, name@, now,
                entry_weight(old(self).spec_footprint(), name_bytes(name@).len())),
            final(self).spec_policy() == old(self).spec_policy(),
            final(self).spec_footprint() == old(self).spec_footprint(),
    {
        let weight = weigh_entry(self.footprint_bytes, name.as_str());
        self.cache.insert(queue_id, name, now, weight);
    }

    /// Takes the name the repository loaded after a miss and hands it back
    /// unchanged; a found name is kept.
    pub fn complete_load<E>(&mut self, queue_id: u128, loaded: Result<Option<String>, E>, now: u64) -> (r: Result<Option<String>, E>)
        requires
            old(self).wf(),
        ensures
            final(self).wf(),
            final(self).spec_policy() == old(self).spec_policy(),
            final(self).spec_footprint() == old(self).spec_footprint(),
            match loaded {
                Ok(Some(n)) => r matches Ok(Some(x)) && x@ == n@
                    && final(self)@ == after_insert(old(self)@, old(self).spec_policy(), queue_id, n@, now,
                        entry_weight(old(self).spec_footprint(), name_bytes(n@).len())),
                Ok(None) => r matches Ok(None) && final(self)@ == old(self)@,
                Err(e) => r == Err::<Option<String>, E>(e) && final(self)@ == old(self)@,
            },
    {
        match loaded {
            Ok(Some(n)) => {
                let copy = n.clone();
                self.store(queue_id, n, now);
                Ok(Some(copy))
            },
            Ok(None) => Ok(None),
            Err(e) => Err(e),
        }
    }

    /// Writes a created queue's name through to the cache.
    pub fn record_created(&mut self, queue: &Queue, outcome: CreateQueueOutcome, now: u64)
        requires
            old(self).wf(),
        ensures
            final(self).wf(),
            final(self).spec_policy() == old(self).spec_policy(),
            final(self).spec_footprint() == old(self).spec_footprint(),
            outcome == CreateQueueOutcome::Created ==> final(self)@ == after_insert(old(self)@, old(self).spec_policy(),
                queue@.id, queue@.name, now, entry_weight(old(self).spec_footprint(), name_bytes(queue@.name).len())),
            outcome == CreateQueueOutcome::AlreadyExists ==> final(self)@ == old(self)@,
    {
        match outcome {
            CreateQueueOutcome::Created => {
                self.store(queue.id(), queue.name().to_owned(), now);
            },
            CreateQueueOutcome::AlreadyExists => {},
        }
    }

    /// Writes an updated queue's name through to the cache.
    pub fn record_updated(&mut self, updated: &Option<QueueDetails>, now: u64)
        requires
            old(self).wf(),
        ensures
            final(self).wf(),
            final(self).spec_policy() == old(self).spec_policy(),
            final(self).spec_footprint() == old(self).spec_footprint(),
            match *updated {
                Some(d) => final(self)@ == after_insert(old(self)@, old(self).spec_policy(), d@.id, d@.name, now,
                    entry_weight(old(self).spec_footprint(), name_bytes(d@.name).len())),
                None => final(self)@ == old(self)@,
            },
    {
        match updated {
            Some(d) => {
                self.store(d.id(), d.name().to_owned(), now);
            },
            None => {},
        }
    }
}

} // verus!
