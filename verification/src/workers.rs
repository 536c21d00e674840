//! The pacing of the queue's background workers between batches, and the
//! leadership of the state-metrics collector.

use vstd::prelude::*;

verus! {

/// How many timed-out deliveries one visibility-timeout batch handles at most.
pub const VISIBILITY_TIMEOUT_BATCH_SIZE: u32 = 500;

/// The pause of the visibility-timeout processor after a batch that was not full.
pub const VISIBILITY_TIMEOUT_INTERVAL_MILLIS: u64 = 5000;

/// When a worker runs its next batch.
#[derive(Clone, Copy, Debug, PartialEq, Eq, Structural)]
pub enum NextBatch {
    /// At once, after yielding to other tasks.
    Immediately,
    /// After the given number of milliseconds, unless cancelled first.
    After(u64),
}

/// After a visibility-timeout batch: a full batch may have left more timed-out
/// deliveries, so the next batch runs at once; otherwise the processor rests.
pub fn after_visibility_timeout_batch(processed: u64) -> (r: NextBatch)
    ensures
        processed == VISIBILITY_TIMEOUT_BATCH_SIZE ==> r == NextBatch::Immediately,
        processed != VISIBILITY_TIMEOUT_BATCH_SIZE ==> r == NextBatch::After(VISIBILITY_TIMEOUT_INTERVAL_MILLIS),
{
    if processed == VISIBILITY_TIMEOUT_BATCH_SIZE as u64 {
        NextBatch::Immediately
    } else {
        NextBatch::After(VISIBILITY_TIMEOUT_INTERVAL_MILLIS)
    }
}

/// The schedule of a cleaner: its batch size, its regular pause, and the
/// shorter pause after a full batch.
#[derive(Clone, Copy, Debug)]
pub struct CleanerSchedule {
    pub batch_size: u32,
    pub processing_interval_millis: u64,
    pub saturated_batch_delay_millis: u64,
}

/// After a cleaner's batch: a full batch is followed after the saturated-batch
/// delay, any other after the regular interval.
pub fn after_cleaner_batch(schedule: &CleanerSchedule, processed: u64) -> (r: NextBatch)
    ensures
        processed == schedule.batch_size ==> r == NextBatch::After(schedule.saturated_batch_delay_millis),
        processed != schedule.batch_size ==> r == NextBatch::After(schedule.processing_interval_millis),
{
    if processed == schedule.batch_size as u64 {
        NextBatch::After(schedule.saturated_batch_delay_millis)
    } else {
        NextBatch::After(schedule.processing_interval_millis)
    }
}

/// Whether a batch is worth a log line: only batches that did something are.
pub fn batch_is_reported(processed: u64) -> (r: bool)
    ensures
        r == (processed > 0),
{
    processed > 0
}

/// What the state-metrics collector does after trying for leadership.
#[derive(Debug)]
pub enum LeadershipStep<L> {
    /// Leadership was acquired: collect while holding the lease.
    Lead(L),
    /// Another process leads: stand by and try again at the next tick.
    StandBy,
}

/// Only a granted lease makes the collector lead.
pub fn after_leadership_attempt<L>(lease: Option<L>) -> (r: LeadershipStep<L>)
    ensures
        match lease {
            Some(l) => r == LeadershipStep::Lead(l),
            None => r == LeadershipStep::<L>::StandBy,
        },
{
    match lease {
        Some(l) => LeadershipStep::Lead(l),
        None => LeadershipStep::StandBy,
    }
}

/// Why shutting the telemetry providers down failed.
#[derive(Debug)]
pub enum ShutdownFailure<M, T> {
    Metrics(M),
    Traces(T),
}

/// Both providers are shut down before anything is reported; a metrics
/// failure is reported before a traces failure; without a trace provider
/// only the metrics result counts.
pub fn combine_shutdown_results<M, T>(metrics: Result<(), M>, traces: Option<Result<(), T>>) -> (r: Result<(), ShutdownFailure<M, T>>)
    ensures
        match (metrics, traces) {
            (Err(m), _) => r == Err::<(), ShutdownFailure<M, T>>(ShutdownFailure::Metrics(m)),
            (Ok(_), Some(Err(t))) => r == Err::<(), ShutdownFailure<M, T>>(ShutdownFailure::Traces(t)),
            (Ok(_), _) => r is Ok,
        },
{
    match metrics {
        Err(m) => Err(ShutdownFailure::Metrics(m)),
        Ok(()) => match traces {
            Some(Err(t)) => Err(ShutdownFailure::Traces(t)),
            _ => Ok(()),
        },
    }
}

} // verus!
