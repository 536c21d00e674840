use retsu::application::CreateQueueOutcome;
use retsu::cache::{weigh_entry, CachedQueueRepository, QueueNameCache};
use retsu::memory_cache::{MemoryCache, MemoryCachePolicy};
use retsu::queue::{Queue, QueueDetails};
use retsu::shared_cache::{
    cache_update_after_load, details_key, entry_after_create, entry_after_update, load_lock_key,
    next_step_after_lock_attempt, next_step_after_read, read_outcome, CachedQueueDetails, LookupPhase, LookupStep,
    DETAILS_TTL_SECONDS, MISSING_TTL_SECONDS,
};
use uuid::Uuid;

const TTL_MILLIS: u64 = 60_000;

/// A details cache with the limits the service's tests use: 100 entries,
/// 1 MiB and a minute; each entry weighs its identifier, the details and the name.
fn cached() -> CachedQueueRepository<()> {
    let policy = MemoryCachePolicy::new(100, 1024 * 1024, TTL_MILLIS);
    let footprint = (std::mem::size_of::<Uuid>() + std::mem::size_of::<QueueDetails>()) as u64;
    CachedQueueRepository::new((), policy, footprint)
}

/// Reads through the cache at time `now` the way the repository decorator
/// does, counting repository reads.
fn cached_details_at(
    cache: &mut CachedQueueRepository<()>,
    source: &Option<QueueDetails>,
    reads: &mut usize,
    queue_id: u128,
    now: u64,
) -> Option<QueueDetails> {
    if let Some(hit) = cache.lookup(queue_id, now) {
        return Some(hit);
    }
    *reads += 1;
    cache
        .complete_load::<String>(queue_id, Ok(source.as_ref().map(QueueDetails::duplicate)), now)
        .expect("fake repository never fails")
}

fn cached_details(cache: &mut CachedQueueRepository<()>, source: &Option<QueueDetails>, reads: &mut usize, queue_id: u128) -> Option<QueueDetails> {
    cached_details_at(cache, source, reads, queue_id, 0)
}

fn same(a: &QueueDetails, b: &QueueDetails) -> bool {
    a.id() == b.id()
        && a.name() == b.name()
        && a.visibility_timeout_seconds() == b.visibility_timeout_seconds()
        && a.max_delivery_attempts() == b.max_delivery_attempts()
        && a.default_message_ttl_seconds() == b.default_message_ttl_seconds()
}

#[test]
fn reads_through_and_reuses_queue_details() {
    let queue_id = Uuid::now_v7().as_u128();
    let details = QueueDetails::new(queue_id, "email-delivery".to_owned(), 45, 7, 300);
    let source = Some(details.duplicate());
    let mut cache = cached();
    let mut reads = 0;

    for _ in 0..2 {
        let actual = cached_details(&mut cache, &source, &mut reads, queue_id).expect("queue should exist");
        assert!(same(&actual, &details));
    }

    assert_eq!(reads, 1);
}

#[test]
fn populates_the_cache_only_after_successful_creation() {
    let mut cache = cached();
    let queue = Queue::new("email-delivery".to_owned(), Some(45), Some(7), Some(300)).expect("queue should be valid");

    cache.record_created(&queue, CreateQueueOutcome::Created, 0);

    let mut reads = 0;
    let details = cached_details(&mut cache, &None, &mut reads, queue.id()).expect("created queue should be cached");

    assert_eq!(details.id(), queue.id());
    assert_eq!(details.name(), queue.name());
    assert_eq!(reads, 0);
}

#[test]
fn invalidation_forces_the_next_read_through_to_the_repository() {
    let queue_id = Uuid::now_v7().as_u128();
    let initial = QueueDetails::new(queue_id, "email-delivery".to_owned(), 45, 7, 300);
    let mut cache = cached();
    let mut reads = 0;

    cached_details(&mut cache, &Some(initial), &mut reads, queue_id).expect("queue should exist");

    let updated = QueueDetails::new(queue_id, "email-delivery".to_owned(), 90, 10, 600);
    cache.invalidate(queue_id);

    let actual = cached_details(&mut cache, &Some(updated.duplicate()), &mut reads, queue_id).expect("queue should still exist");

    assert!(same(&actual, &updated));
    assert_eq!(reads, 2);
}

#[test]
fn does_not_cache_the_unpersisted_queue_after_a_conflict() {
    let persisted_id = Uuid::now_v7().as_u128();
    let persisted = QueueDetails::new(persisted_id, "email-delivery".to_owned(), 30, 5, 604_800);
    let mut cache = cached();
    let conflicting = Queue::new("email-delivery".to_owned(), Some(60), Some(10), Some(300)).expect("queue should be valid");

    cache.record_created(&conflicting, CreateQueueOutcome::AlreadyExists, 0);

    let mut reads = 0;
    let found = cached_details(&mut cache, &Some(persisted), &mut reads, conflicting.id())
        .expect("fake repository returns its persisted queue");

    assert_eq!(found.id(), persisted_id);
    assert_eq!(reads, 1);
}

#[test]
fn missing_queues_are_not_kept_in_process() {
    let mut cache = cached();
    let mut reads = 0;
    assert!(cached_details(&mut cache, &None, &mut reads, 5).is_none());
    assert!(cached_details(&mut cache, &None, &mut reads, 5).is_none());
    assert_eq!(reads, 2);
}

#[test]
fn cached_details_expire_after_their_time_to_live() {
    let details = QueueDetails::new(7, "email-delivery".to_owned(), 45, 7, 300);
    let source = Some(details.duplicate());
    let mut cache = cached();
    let mut reads = 0;

    cached_details_at(&mut cache, &source, &mut reads, 7, 1_000);
    cached_details_at(&mut cache, &source, &mut reads, 7, 1_000 + TTL_MILLIS - 1);
    assert_eq!(reads, 1);
    assert!(cache.lookup(7, 1_000 + TTL_MILLIS).is_none());
    cached_details_at(&mut cache, &source, &mut reads, 7, 1_000 + TTL_MILLIS);
    assert_eq!(reads, 2);
}

#[test]
fn memory_cache_evicts_the_oldest_insertions_beyond_its_entry_budget() {
    let mut cache: MemoryCache<String> = MemoryCache::new(MemoryCachePolicy::new(2, 1_000, 10));
    cache.insert(1, "one".to_owned(), 0, 1);
    cache.insert(2, "two".to_owned(), 0, 1);
    cache.insert(3, "three".to_owned(), 0, 1);
    assert!(cache.get(1, 0).is_none());
    assert_eq!(cache.get(2, 0).map(String::as_str), Some("two"));
    assert_eq!(cache.get(3, 0).map(String::as_str), Some("three"));

    cache.insert(2, "again".to_owned(), 1, 1);
    cache.insert(4, "four".to_owned(), 1, 1);
    assert!(cache.get(3, 1).is_none());
    assert_eq!(cache.get(2, 1).map(String::as_str), Some("again"));
    assert_eq!(cache.get(4, 1).map(String::as_str), Some("four"));
}

#[test]
fn memory_cache_respects_its_weight_budget() {
    let mut cache: MemoryCache<String> = MemoryCache::new(MemoryCachePolicy::new(10, 100, 10));
    cache.insert(1, "a".to_owned(), 0, 60);
    cache.insert(2, "b".to_owned(), 0, 30);
    cache.insert(3, "c".to_owned(), 0, 30);
    assert!(cache.get(1, 0).is_none());
    assert!(cache.get(2, 0).is_some());
    assert!(cache.get(3, 0).is_some());

    cache.insert(2, "too heavy".to_owned(), 0, 101);
    assert!(cache.get(2, 0).is_none());
    assert!(cache.get(3, 0).is_some());

    let mut closed: MemoryCache<String> = MemoryCache::new(MemoryCachePolicy::new(0, 100, 10));
    closed.insert(1, "a".to_owned(), 0, 1);
    assert!(closed.get(1, 0).is_none());
}

#[test]
fn entries_weigh_their_footprint_and_text() {
    assert_eq!(weigh_entry(64, "email-delivery"), 78);
    assert_eq!(weigh_entry(0, "é"), 2);
    assert_eq!(weigh_entry(u64::MAX, "x"), u32::MAX);
}

#[test]
fn queue_names_are_written_through() {
    let mut names = QueueNameCache::new(MemoryCachePolicy::new(100, 1024 * 1024, TTL_MILLIS), 40);
    let queue = Queue::new("jobs".to_owned(), None, None, None).unwrap();
    names.record_created(&queue, CreateQueueOutcome::Created, 0);
    assert_eq!(names.lookup(queue.id(), 0).as_deref(), Some("jobs"));

    names.record_updated(&Some(QueueDetails::new(3, "renamed".to_owned(), 30, 5, 60)), 0);
    assert_eq!(names.lookup(3, 0).as_deref(), Some("renamed"));

    let loaded = names.complete_load::<String>(4, Ok(Some("other".to_owned())), 0).unwrap();
    assert_eq!(loaded.as_deref(), Some("other"));
    assert_eq!(names.lookup(4, 0).as_deref(), Some("other"));
    assert_eq!(names.lookup(5, 0), None);
    assert_eq!(names.lookup(4, TTL_MILLIS), None);
}

#[test]
fn shared_cache_keys_use_the_hyphenated_identifier() {
    let id = Uuid::parse_str("0190c2f4-5a6b-7c8d-9e0f-a1b2c3d4e5f6").unwrap();
    assert_eq!(details_key(id.as_u128()), "retsu:queue_details:0190c2f4-5a6b-7c8d-9e0f-a1b2c3d4e5f6");
    assert_eq!(load_lock_key(id.as_u128()), "retsu:queue_details:0190c2f4-5a6b-7c8d-9e0f-a1b2c3d4e5f6:load-lock");
}

#[test]
fn lookups_answer_from_the_shared_cache_and_load_under_the_lock() {
    let details = QueueDetails::new(1, "q".to_owned(), 30, 5, 60);
    match next_step_after_read::<String>(LookupPhase::First, Ok(Some(CachedQueueDetails::Found(details)))) {
        LookupStep::Finish(Some(found)) => assert_eq!(found.name(), "q"),
        other => panic!("unexpected step {other:?}"),
    }
    assert!(matches!(
        next_step_after_read::<String>(LookupPhase::First, Ok(Some(CachedQueueDetails::Missing))),
        LookupStep::Finish(None)
    ));
    assert!(matches!(next_step_after_read::<String>(LookupPhase::First, Ok(None)), LookupStep::AcquireLoadLock));
    assert!(matches!(next_step_after_read::<String>(LookupPhase::AfterWaiting, Ok(None)), LookupStep::AcquireLoadLock));
    assert!(matches!(next_step_after_read::<String>(LookupPhase::HoldingLoadLock, Ok(None)), LookupStep::LoadAndCache));
    assert!(matches!(
        next_step_after_read(LookupPhase::First, Err("redis down".to_owned())),
        LookupStep::LoadBypassingCache(fault) if fault == "redis down"
    ));

    assert!(matches!(next_step_after_lock_attempt::<String>(Ok(true)), LookupStep::ReadCache(LookupPhase::HoldingLoadLock)));
    assert!(matches!(next_step_after_lock_attempt::<String>(Ok(false)), LookupStep::ReadCache(LookupPhase::AfterWaiting)));
    assert!(matches!(next_step_after_lock_attempt(Err("timeout".to_owned())), LookupStep::LoadBypassingCache(_)));
}

#[test]
fn loads_are_cached_with_their_time_to_live() {
    let found = cache_update_after_load::<String>(&Ok(Some(QueueDetails::new(1, "q".to_owned(), 30, 5, 60))));
    assert_eq!(found.outcome(), "success");
    assert!(matches!(found.into_entry(), Some((CachedQueueDetails::Found(_), ttl)) if ttl == DETAILS_TTL_SECONDS));

    let missing = cache_update_after_load::<String>(&Ok(None));
    assert_eq!(missing.outcome(), "not_found");
    assert!(matches!(missing.into_entry(), Some((CachedQueueDetails::Missing, ttl)) if ttl == MISSING_TTL_SECONDS));

    let failed = cache_update_after_load(&Err::<Option<QueueDetails>, String>("down".to_owned()));
    assert_eq!(failed.outcome(), "error");
    assert!(failed.into_entry().is_none());

    let queue = Queue::new("q".to_owned(), None, None, None).unwrap();
    assert!(entry_after_create(&queue, CreateQueueOutcome::Created).is_some());
    assert!(entry_after_create(&queue, CreateQueueOutcome::AlreadyExists).is_none());
    assert!(entry_after_update(&None).is_none());
    assert!(matches!(
        entry_after_update(&Some(QueueDetails::new(2, "r".to_owned(), 30, 5, 60))),
        Some(CachedQueueDetails::Found(d)) if d.id() == 2
    ));
    assert_eq!(read_outcome(true), "hit");
    assert_eq!(read_outcome(false), "miss");
}
