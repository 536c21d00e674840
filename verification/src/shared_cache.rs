//! The distributed queue-details cache that all processes share: its keys,
//! its entries, and the steps of a lookup that lets a single process load a
//! missing entry while the others wait for it.

use vstd::prelude::*;

use crate::application::CreateQueueOutcome;
use crate::queue::{Queue, QueueDetails};

verus! {

/// The cache's name in metrics.
pub const CACHE_NAME: &'static str = "queue_details";

/// How long a found queue stays cached, in seconds.
pub const DETAILS_TTL_SECONDS: u64 = 300;

/// How long a missing queue stays cached as missing, in seconds.
pub const MISSING_TTL_SECONDS: u64 = 5;

/// How long the load lock of a queue is held at most, in seconds.
pub const LOAD_LOCK_TTL_SECONDS: u64 = 2;

/// How long a process waits for another process's load, in milliseconds.
pub const LOAD_RETRY_INTERVAL_MILLIS: u64 = 10;

/// The lowercase hexadecimal digit of a value below sixteen.
pub open spec fn hex_digit(n: u128) -> char {
    if n < 10 {
        (48 + n) as char
    } else {
        (87 + n) as char
    }
}

/// Whether position `i` of a hyphenated UUID holds a hyphen.
pub open spec fn is_hyphen_position(i: int) -> bool {
    i == 8 || i == 13 || i == 18 || i == 23
}

/// How many hyphens come before position `i` of a hyphenated UUID.
pub open spec fn hyphens_before(i: int) -> int {
    if i <= 8 { 0 } else if i <= 13 { 1 } else if i <= 18 { 2 } else if i <= 23 { 3 } else { 4 }
}

/// The `k`-th hexadecimal digit of a 128-bit value, from the most significant.
pub open spec fn nibble(id: u128, k: int) -> u128 {
    (id >> ((124 - 4 * k) as u128)) & 0xfu128
}

/// The hyphenated lowercase text of a UUID: 32 hexadecimal digits, most
/// significant first, in groups of 8, 4, 4, 4 and 12 separated by hyphens.
pub open spec fn hyphenated_uuid(id: u128) -> Seq<char> {
    Seq::new(36, |i: int| if is_hyphen_position(i) { '-' } else { hex_digit(nibble(id, i - hyphens_before(i))) })
}

/// `uuid::Uuid::from_u128` followed by the `Display` of `Uuid::hyphenated`,
/// which the uuid crate documents as the lowercase 8-4-4-4-12 form.
#[verifier::external_body]
fn uuid_hyphenated_text(id: u128) -> (r: String)
    ensures
        r@ == hyphenated_uuid(id),
{
    uuid::Uuid::from_u128(id).hyphenated().to_string()
}

pub open spec fn details_key_text(queue_id: u128) -> Seq<char> {
    "retsu:queue_details:"@ + hyphenated_uuid(queue_id)
}

/// The key under which a queue's details are cached.
pub fn details_key(queue_id: u128) -> (r: String)
    ensures
        r@ == details_key_text(queue_id),
{
    let mut key = "retsu:queue_details:".to_owned();
    let id = uuid_hyphenated_text(queue_id);
    key.append(id.as_str());
    key
}

/// The key of the lock that the process loading a queue's details holds.
pub fn load_lock_key(queue_id: u128) -> (r: String)
    ensures
        r@ == details_key_text(queue_id) + ":load-lock"@,
{
    let mut key = details_key(queue_id);
    key.append(":load-lock");
    key
}

/// A cache entry: the queue's details, or the knowledge that it does not exist.
#[derive(Debug)]
pub enum CachedQueueDetails {
    Found(QueueDetails),
    Missing,
}

pub open spec fn entry_details(entry: CachedQueueDetails) -> Option<QueueDetails> {
    match entry {
        CachedQueueDetails::Found(d) => Some(d),
        CachedQueueDetails::Missing => None,
    }
}

impl CachedQueueDetails {
    pub fn into_details(self) -> (r: Option<QueueDetails>)
        ensures
            r == entry_details(self),
    {
        match self {
            CachedQueueDetails::Found(d) => Some(d),
            CachedQueueDetails::Missing => None,
        }
    }
}

/// Which read of the cache a lookup is at.
#[derive(Clone, Copy, Debug, PartialEq, Eq, Structural)]
pub enum LookupPhase {
    /// The first read.
    First,
    /// A read made while holding the queue's load lock.
    HoldingLoadLock,
    /// A read made after waiting for another process's load.
    AfterWaiting,
}

/// What a lookup does next.
#[derive(Debug)]
pub enum LookupStep<F> {
    /// Answer with what the cache holds.
    Finish(Option<QueueDetails>),
    /// Try to take the queue's load lock for `LOAD_LOCK_TTL_SECONDS`.
    AcquireLoadLock,
    /// Read the cache again; in the waiting phase after `LOAD_RETRY_INTERVAL_MILLIS`.
    ReadCache(LookupPhase),
    /// Load from the repository and store the result in the cache.
    LoadAndCache,
    /// The cache failed: report the fault and load from the repository alone.
    LoadBypassingCache(F),
}

pub open spec fn step_after_read<F>(phase: LookupPhase, read: Result<Option<CachedQueueDetails>, F>) -> LookupStep<F> {
    match read {
        Ok(Some(entry)) => LookupStep::Finish(entry_details(entry)),
        Ok(None) => match phase {
            LookupPhase::HoldingLoadLock => LookupStep::LoadAndCache,
            _ => LookupStep::AcquireLoadLock,
        },
        Err(f) => LookupStep::LoadBypassingCache(f),
    }
}

pub open spec fn step_after_lock_attempt<F>(attempt: Result<bool, F>) -> LookupStep<F> {
    match attempt {
        Ok(true) => LookupStep::ReadCache(LookupPhase::HoldingLoadLock),
        Ok(false) => LookupStep::ReadCache(LookupPhase::AfterWaiting),
        Err(f) => LookupStep::LoadBypassingCache(f),
    }
}

/// The step after reading the cache: an entry answers the lookup; a miss
/// makes the process try for the load lock, or, when it holds the lock,
/// load and cache; a failed read falls back to the repository.
pub fn next_step_after_read<F>(phase: LookupPhase, read: Result<Option<CachedQueueDetails>, F>) -> (r: LookupStep<F>)
    ensures
        r == step_after_read(phase, read),
{
    match read {
        Ok(Some(entry)) => LookupStep::Finish(entry.into_details()),
        Ok(None) => match phase {
            LookupPhase::HoldingLoadLock => LookupStep::LoadAndCache,
            _ => LookupStep::AcquireLoadLock,
        },
        Err(f) => LookupStep::LoadBypassingCache(f),
    }
}

/// The step after trying for the load lock: the holder reads once more before
/// loading; a process that finds the lock taken waits and reads again; a
/// failed attempt falls back to the repository.
pub fn next_step_after_lock_attempt<F>(attempt: Result<bool, F>) -> (r: LookupStep<F>)
    ensures
        r == step_after_lock_attempt(attempt),
{
    match attempt {
        Ok(true) => LookupStep::ReadCache(LookupPhase::HoldingLoadLock),
        Ok(false) => LookupStep::ReadCache(LookupPhase::AfterWaiting),
        Err(f) => LookupStep::LoadBypassingCache(f),
    }
}

/// Only the holder of a queue's load lock loads it into the cache, and only
/// after finding the cache still empty for it; the holding phase is reached
/// only by a successful lock attempt.
pub proof fn lemma_only_the_lock_holder_loads<F>(phase: LookupPhase, read: Result<Option<CachedQueueDetails>, F>, attempt: Result<bool, F>)
    ensures
        step_after_read(phase, read) is LoadAndCache ==> phase == LookupPhase::HoldingLoadLock && read is Ok && read->Ok_0 is None,
        step_after_lock_attempt(attempt) == LookupStep::<F>::ReadCache(LookupPhase::HoldingLoadLock) <==> attempt == Ok::<bool, F>(true),
        !(step_after_lock_attempt(attempt) is LoadAndCache),
{
}

/// A cached entry, found or missing, answers the lookup without reaching the
/// repository, whichever read found it.
pub proof fn lemma_cached_entries_answer_directly<F>(phase: LookupPhase, entry: CachedQueueDetails)
    ensures
        step_after_read(phase, Ok::<Option<CachedQueueDetails>, F>(Some(entry))) == LookupStep::<F>::Finish(entry_details(entry)),
{
}

/// A failing cache never fails a lookup: every cache fault falls back to the
/// repository and carries the fault to be reported.
pub proof fn lemma_cache_faults_fall_back<F>(phase: LookupPhase, fault: F)
    ensures
        step_after_read(phase, Err::<Option<CachedQueueDetails>, F>(fault)) == LookupStep::<F>::LoadBypassingCache(fault),
        step_after_lock_attempt(Err::<bool, F>(fault)) == LookupStep::<F>::LoadBypassingCache(fault),
{
}

/// How the load of a queue after a miss is reported and cached: the metrics
/// outcome, and the entry to store with its time-to-live in seconds.
#[derive(Debug)]
pub struct LoadCacheUpdate {
    outcome: &'static str,
    entry: Option<(CachedQueueDetails, u64)>,
}

impl LoadCacheUpdate {
    pub closed spec fn spec_outcome(&self) -> Seq<char> {
        self.outcome@
    }

    pub closed spec fn spec_entry(&self) -> Option<(CachedQueueDetails, u64)> {
        self.entry
    }

    pub fn outcome(&self) -> (r: &'static str)
        ensures
            r@ == self.spec_outcome(),
    {
        self.outcome
    }

    pub fn into_entry(self) -> (r: Option<(CachedQueueDetails, u64)>)
        ensures
            r == self.spec_entry(),
    {
        self.entry
    }
}

/// After loading a queue from the repository: a found queue is cached for
/// five minutes, a missing one is remembered as missing for five seconds, and
/// a failed load caches nothing.
pub fn cache_update_after_load<E>(loaded: &Result<Option<QueueDetails>, E>) -> (r: LoadCacheUpdate)
    ensures
        match *loaded {
            Ok(Some(d)) => r.spec_outcome() == "success"@ && (r.spec_entry() matches Some((CachedQueueDetails::Found(c), ttl))
                && c@ == d@ && ttl == DETAILS_TTL_SECONDS),
            Ok(None) => r.spec_outcome() == "not_found"@
                && (r.spec_entry() matches Some((CachedQueueDetails::Missing, ttl)) && ttl == MISSING_TTL_SECONDS),
            Err(_) => r.spec_outcome() == "error"@ && r.spec_entry() is None,
        },
{
    match loaded {
        Ok(Some(d)) => LoadCacheUpdate {
            outcome: "success",
            entry: Some((CachedQueueDetails::Found(d.duplicate()), DETAILS_TTL_SECONDS)),
        },
        Ok(None) => LoadCacheUpdate { outcome: "not_found", entry: Some((CachedQueueDetails::Missing, MISSING_TTL_SECONDS)) },
        Err(_) => LoadCacheUpdate { outcome: "error", entry: None },
    }
}

/// The entry written through to the cache after a queue is stored: only a
/// created queue is written.
pub fn entry_after_create(queue: &Queue, outcome: CreateQueueOutcome) -> (r: Option<CachedQueueDetails>)
    ensures
        match outcome {
            CreateQueueOutcome::Created => r matches Some(CachedQueueDetails::Found(d)) && d@ == queue@,
            CreateQueueOutcome::AlreadyExists => r is None,
        },
{
    match outcome {
        CreateQueueOutcome::Created => Some(CachedQueueDetails::Found(queue.details())),
        CreateQueueOutcome::AlreadyExists => None,
    }
}

/// The entry written through to the cache after a queue is updated: the
/// updated details, when the queue exists.
pub fn entry_after_update(updated: &Option<QueueDetails>) -> (r: Option<CachedQueueDetails>)
    ensures
        match *updated {
            Some(u) => r matches Some(CachedQueueDetails::Found(d)) && d@ == u@,
            None => r is None,
        },
{
    match updated {
        Some(u) => Some(CachedQueueDetails::Found(u.duplicate())),
        None => None,
    }
}

/// The metrics outcome of a cache read: a stored value is a hit.
pub fn read_outcome(value_present: bool) -> (r: &'static str)
    ensures
        r@ == (if value_present { "hit"@ } else { "miss"@ }),
{
    if value_present { "hit" } else { "miss" }
}

} // verus!
