//! Per-queue and total counts reported by the background processing of
//! messages: expirations, visibility timeouts and dead-letter purges.

use vstd::prelude::*;

verus! {

/// The sum of a sequence of integers.
pub open spec fn sum_of(s: Seq<int>) -> int
    decreases s.len(),
{
    if s.len() == 0 {
        0
    } else {
        sum_of(s.drop_last()) + s.last()
    }
}

/// Whether every element is non-negative.
pub open spec fn all_non_negative(s: Seq<int>) -> bool {
    forall|i: int| 0 <= i < s.len() ==> 0 <= #[trigger] s[i]
}

/// A sum of non-negative integers bounds the sum of each of its prefixes.
pub proof fn lemma_prefix_sum_bounded(s: Seq<int>, n: int)
    requires
        all_non_negative(s),
        0 <= n <= s.len(),
    ensures
        0 <= sum_of(s.take(n)) <= sum_of(s),
    decreases s.len(),
{
    if s.len() == 0 {
        assert(s.take(n) =~= s);
    } else if n == s.len() {
        assert(s.take(n) =~= s);
        lemma_prefix_sum_bounded(s.drop_last(), s.len() - 1);
        assert(s.drop_last().take(s.len() - 1) =~= s.drop_last());
    } else {
        lemma_prefix_sum_bounded(s.drop_last(), n);
        assert(s.drop_last().take(n) =~= s.take(n));
    }
}

/// Extending a prefix by one element adds that element to the prefix sum.
pub proof fn lemma_prefix_sum_step(s: Seq<int>, n: int)
    requires
        0 <= n < s.len(),
    ensures
        sum_of(s.take(n + 1)) == sum_of(s.take(n)) + s[n],
{
    assert(s.take(n + 1).drop_last() =~= s.take(n));
}

/// The sum of pointwise sums is the sum of the two sums.
pub proof fn lemma_sum_of_pointwise_add(a: Seq<int>, b: Seq<int>, c: Seq<int>)
    requires
        a.len() == b.len(),
        c.len() == a.len(),
        forall|i: int| 0 <= i < a.len() ==> #[trigger] c[i] == a[i] + b[i],
    ensures
        sum_of(c) == sum_of(a) + sum_of(b),
    decreases a.len(),
{
    if a.len() > 0 {
        lemma_sum_of_pointwise_add(a.drop_last(), b.drop_last(), c.drop_last());
    }
}

// ---------------------------------------------------------------- expiration

pub struct QueueExpiredMessagesCleanupSummaryView {
    pub queue_name: Seq<char>,
    pub never_delivered: u64,
    pub previously_delivered: u64,
}

/// How many expired messages were removed from one queue, split by whether
/// they had ever been delivered.
#[derive(Debug)]
pub struct QueueExpiredMessagesCleanupSummary {
    queue_name: String,
    never_delivered: u64,
    previously_delivered: u64,
}

impl View for QueueExpiredMessagesCleanupSummary {
    type V = QueueExpiredMessagesCleanupSummaryView;

    closed spec fn view(&self) -> QueueExpiredMessagesCleanupSummaryView {
        QueueExpiredMessagesCleanupSummaryView {
            queue_name: self.queue_name@,
            never_delivered: self.never_delivered,
            previously_delivered: self.previously_delivered,
        }
    }
}

impl QueueExpiredMessagesCleanupSummary {
    pub fn new(queue_name: String, never_delivered: u64, previously_delivered: u64) -> (r: Self)
        ensures
            r@ == (QueueExpiredMessagesCleanupSummaryView {
                queue_name: queue_name@,
                never_delivered,
                previously_delivered,
            }),
    {
        QueueExpiredMessagesCleanupSummary { queue_name, never_delivered, previously_delivered }
    }

    pub fn queue_name(&self) -> (r: &str)
        ensures
            r@ == self@.queue_name,
    {
        self.queue_name.as_str()
    }

    pub fn never_delivered(&self) -> (r: u64)
        ensures
            r == self@.never_delivered,
    {
        self.never_delivered
    }

    pub fn previously_delivered(&self) -> (r: u64)
        ensures
            r == self@.previously_delivered,
    {
        self.previously_delivered
    }

    /// All expired messages removed from the queue.
    pub fn processed(&self) -> (r: u64)
        requires
            self@.never_delivered + self@.previously_delivered <= u64::MAX,
        ensures
            r == self@.never_delivered + self@.previously_delivered,
    {
        self.never_delivered + self.previously_delivered
    }
}

pub open spec fn expired_never_counts(s: Seq<QueueExpiredMessagesCleanupSummary>) -> Seq<int> {
    s.map_values(|q: QueueExpiredMessagesCleanupSummary| q@.never_delivered as int)
}

pub open spec fn expired_previous_counts(s: Seq<QueueExpiredMessagesCleanupSummary>) -> Seq<int> {
    s.map_values(|q: QueueExpiredMessagesCleanupSummary| q@.previously_delivered as int)
}

pub open spec fn expired_processed_counts(s: Seq<QueueExpiredMessagesCleanupSummary>) -> Seq<int> {
    s.map_values(
        |q: QueueExpiredMessagesCleanupSummary| q@.never_delivered as int + q@.previously_delivered as int,
    )
}

/// How many expired messages were removed, queue by queue.
#[derive(Debug)]
pub struct ExpiredMessagesCleanupSummary {
    per_queue: Vec<QueueExpiredMessagesCleanupSummary>,
}

impl ExpiredMessagesCleanupSummary {
    pub closed spec fn queues(&self) -> Seq<QueueExpiredMessagesCleanupSummary> {
        self.per_queue@
    }

    pub open spec fn total_processed(&self) -> int {
        sum_of(expired_processed_counts(self.queues()))
    }

    pub open spec fn total_never_delivered(&self) -> int {
        sum_of(expired_never_counts(self.queues()))
    }

    pub open spec fn total_previously_delivered(&self) -> int {
        sum_of(expired_previous_counts(self.queues()))
    }

    pub fn new(per_queue: Vec<QueueExpiredMessagesCleanupSummary>) -> (r: Self)
        ensures
            r.queues() == per_queue@,
    {
        ExpiredMessagesCleanupSummary { per_queue }
    }

    pub fn per_queue(&self) -> (r: &[QueueExpiredMessagesCleanupSummary])
        ensures
            r@ == self.queues(),
    {
        self.per_queue.as_slice()
    }

    /// All expired messages removed, over every queue.
    pub fn processed(&self) -> (r: u64)
        requires
            self.total_processed() <= u64::MAX,
        ensures
            r == self.total_processed(),
    {
        let ghost counts = expired_processed_counts(self.per_queue@);
        proof {
            assert(all_non_negative(counts));
        }
        let mut total: u64 = 0;
        let mut i: usize = 0;
        while i < self.per_queue.len()
            invariant
                counts == expired_processed_counts(self.per_queue@),
                all_non_negative(counts),
                sum_of(counts) <= u64::MAX,
                0 <= i <= self.per_queue@.len(),
                total == sum_of(counts.take(i as int)),
            decreases self.per_queue@.len() - i,
        {
            proof {
                lemma_prefix_sum_step(counts, i as int);
                lemma_prefix_sum_bounded(counts, i + 1);
            }
            let q = &self.per_queue[i];
            total = total + (q.never_delivered + q.previously_delivered);
            i = i + 1;
        }
        proof {
            assert(counts.take(i as int) =~= counts);
        }
        total
    }

    /// Expired messages that had never been delivered, over every queue.
    pub fn never_delivered(&self) -> (r: u64)
        requires
            self.total_never_delivered() <= u64::MAX,
        ensures
            r == self.total_never_delivered(),
    {
        let ghost counts = expired_never_counts(self.per_queue@);
        proof {
            assert(all_non_negative(counts));
        }
        let mut total: u64 = 0;
        let mut i: usize = 0;
        while i < self.per_queue.len()
            invariant
                counts == expired_never_counts(self.per_queue@),
                all_non_negative(counts),
                sum_of(counts) <= u64::MAX,
                0 <= i <= self.per_queue@.len(),
                total == sum_of(counts.take(i as int)),
            decreases self.per_queue@.len() - i,
        {
            proof {
                lemma_prefix_sum_step(counts, i as int);
                lemma_prefix_sum_bounded(counts, i + 1);
            }
            total = total + self.per_queue[i].never_delivered;
            i = i + 1;
        }
        proof {
            assert(counts.take(i as int) =~= counts);
        }
        total
    }

    /// Expired messages that had been delivered at least once, over every queue.
    pub fn previously_delivered(&self) -> (r: u64)
        requires
            self.total_previously_delivered() <= u64::MAX,
        ensures
            r == self.total_previously_delivered(),
    {
        let ghost counts = expired_previous_counts(self.per_queue@);
        proof {
            assert(all_non_negative(counts));
        }
        let mut total: u64 = 0;
        let mut i: usize = 0;
        while i < self.per_queue.len()
            invariant
                counts == expired_previous_counts(self.per_queue@),
                all_non_negative(counts),
                sum_of(counts) <= u64::MAX,
                0 <= i <= self.per_queue@.len(),
                total == sum_of(counts.take(i as int)),
            decreases self.per_queue@.len() - i,
        {
            proof {
                lemma_prefix_sum_step(counts, i as int);
                lemma_prefix_sum_bounded(counts, i + 1);
            }
            total = total + self.per_queue[i].previously_delivered;
            i = i + 1;
        }
        proof {
            assert(counts.take(i as int) =~= counts);
        }
        total
    }
}

/// Every removed expired message was either never or previously delivered:
/// the total processed is the sum of the two totals.
pub proof fn lemma_expired_processed_splits(summary: &ExpiredMessagesCleanupSummary)
    ensures
        summary.total_processed() == summary.total_never_delivered() + summary.total_previously_delivered(),
{
    lemma_sum_of_pointwise_add(
        expired_never_counts(summary.queues()),
        expired_previous_counts(summary.queues()),
        expired_processed_counts(summary.queues()),
    );
}

// ---------------------------------------------------------- visibility timeout

pub struct QueueTimeoutProcessingSummaryView {
    pub queue_name: Seq<char>,
    pub requeued: u64,
    pub dead_lettered: u64,
}

/// How many timed-out deliveries of one queue were made ready again, and how
/// many were moved to dead-letter storage after exhausting their attempts.
#[derive(Debug)]
pub struct QueueTimeoutProcessingSummary {
    queue_name: String,
    requeued: u64,
    dead_lettered: u64,
}

impl View for QueueTimeoutProcessingSummary {
    type V = QueueTimeoutProcessingSummaryView;

    closed spec fn view(&self) -> QueueTimeoutProcessingSummaryView {
        QueueTimeoutProcessingSummaryView {
            queue_name: self.queue_name@,
            requeued: self.requeued,
            dead_lettered: self.dead_lettered,
        }
    }
}

impl QueueTimeoutProcessingSummary {
    pub fn new(queue_name: String, requeued: u64, dead_lettered: u64) -> (r: Self)
        ensures
            r@ == (QueueTimeoutProcessingSummaryView { queue_name: queue_name@, requeued, dead_lettered }),
    {
        QueueTimeoutProcessingSummary { queue_name, requeued, dead_lettered }
    }

    pub fn queue_name(&self) -> (r: &str)
        ensures
            r@ == self@.queue_name,
    {
        self.queue_name.as_str()
    }

    pub fn requeued(&self) -> (r: u64)
        ensures
            r == self@.requeued,
    {
        self.requeued
    }

    pub fn dead_lettered(&self) -> (r: u64)
        ensures
            r == self@.dead_lettered,
    {
        self.dead_lettered
    }

    /// All timed-out deliveries handled for the queue.
    pub fn processed(&self) -> (r: u64)
        requires
            self@.requeued + self@.dead_lettered <= u64::MAX,
        ensures
            r == self@.requeued + self@.dead_lettered,
    {
        self.requeued + self.dead_lettered
    }
}

pub open spec fn timeout_requeued_counts(s: Seq<QueueTimeoutProcessingSummary>) -> Seq<int> {
    s.map_values(|q: QueueTimeoutProcessingSummary| q@.requeued as int)
}

pub open spec fn timeout_dead_lettered_counts(s: Seq<QueueTimeoutProcessingSummary>) -> Seq<int> {
    s.map_values(|q: QueueTimeoutProcessingSummary| q@.dead_lettered as int)
}

pub open spec fn timeout_processed_counts(s: Seq<QueueTimeoutProcessingSummary>) -> Seq<int> {
    s.map_values(|q: QueueTimeoutProcessingSummary| q@.requeued as int + q@.dead_lettered as int)
}

/// Timed-out deliveries handled, queue by queue.
#[derive(Debug)]
pub struct TimeoutProcessingSummary {
    per_queue: Vec<QueueTimeoutProcessingSummary>,
}

impl TimeoutProcessingSummary {
    pub closed spec fn queues(&self) -> Seq<QueueTimeoutProcessingSummary> {
        self.per_queue@
    }

    pub open spec fn total_processed(&self) -> int {
        sum_of(timeout_processed_counts(self.queues()))
    }

    pub open spec fn total_requeued(&self) -> int {
        sum_of(timeout_requeued_counts(self.queues()))
    }

    pub open spec fn total_dead_lettered(&self) -> int {
        sum_of(timeout_dead_lettered_counts(self.queues()))
    }

    pub fn new(per_queue: Vec<QueueTimeoutProcessingSummary>) -> (r: Self)
        ensures
            r.queues() == per_queue@,
    {
        TimeoutProcessingSummary { per_queue }
    }

    pub fn per_queue(&self) -> (r: &[QueueTimeoutProcessingSummary])
        ensures
            r@ == self.queues(),
    {
        self.per_queue.as_slice()
    }

    /// All timed-out deliveries handled, over every queue.
    pub fn processed(&self) -> (r: u64)
        requires
            self.total_processed() <= u64::MAX,
        ensures
            r == self.total_processed(),
    {
        let ghost counts = timeout_processed_counts(self.per_queue@);
        proof {
            assert(all_non_negative(counts));
        }
        let mut total: u64 = 0;
        let mut i: usize = 0;
        while i < self.per_queue.len()
            invariant
                counts == timeout_processed_counts(self.per_queue@),
                all_non_negative(counts),
                sum_of(counts) <= u64::MAX,
                0 <= i <= self.per_queue@.len(),
                total == sum_of(counts.take(i as int)),
            decreases self.per_queue@.len() - i,
        {
            proof {
                lemma_prefix_sum_step(counts, i as int);
                lemma_prefix_sum_bounded(counts, i + 1);
            }
            let q = &self.per_queue[i];
            total = total + (q.requeued + q.dead_lettered);
            i = i + 1;
        }
        proof {
            assert(counts.take(i as int) =~= counts);
        }
        total
    }

    /// Deliveries made ready again, over every queue.
    pub fn requeued(&self) -> (r: u64)
        requires
            self.total_requeued() <= u64::MAX,
        ensures
            r == self.total_requeued(),
    {
        let ghost counts = timeout_requeued_counts(self.per_queue@);
        proof {
            assert(all_non_negative(counts));
        }
        let mut total: u64 = 0;
        let mut i: usize = 0;
        while i < self.per_queue.len()
            invariant
                counts == timeout_requeued_counts(self.per_queue@),
                all_non_negative(counts),
                sum_of(counts) <= u64::MAX,
                0 <= i <= self.per_queue@.len(),
                total == sum_of(counts.take(i as int)),
            decreases self.per_queue@.len() - i,
        {
            proof {
                lemma_prefix_sum_step(counts, i as int);
                lemma_prefix_sum_bounded(counts, i + 1);
            }
            total = total + self.per_queue[i].requeued;
            i = i + 1;
        }
        proof {
            assert(counts.take(i as int) =~= counts);
        }
        total
    }

    /// Deliveries moved to dead-letter storage, over every queue.
    pub fn dead_lettered(&self) -> (r: u64)
        requires
            self.total_dead_lettered() <= u64::MAX,
        ensures
            r == self.total_dead_lettered(),
    {
        let ghost counts = timeout_dead_lettered_counts(self.per_queue@);
        proof {
            assert(all_non_negative(counts));
        }
        let mut total: u64 = 0;
        let mut i: usize = 0;
        while i < self.per_queue.len()
            invariant
                counts == timeout_dead_lettered_counts(self.per_queue@),
                all_non_negative(counts),
                sum_of(counts) <= u64::MAX,
                0 <= i <= self.per_queue@.len(),
                total == sum_of(counts.take(i as int)),
            decreases self.per_queue@.len() - i,
        {
            proof {
                lemma_prefix_sum_step(counts, i as int);
                lemma_prefix_sum_bounded(counts, i + 1);
            }
            total = total + self.per_queue[i].dead_lettered;
            i = i + 1;
        }
        proof {
            assert(counts.take(i as int) =~= counts);
        }
        total
    }
}

/// Every handled timed-out delivery was either requeued or dead-lettered:
/// the total processed is the sum of the two totals.
pub proof fn lemma_timeout_processed_splits(summary: &TimeoutProcessingSummary)
    ensures
        summary.total_processed() == summary.total_requeued() + summary.total_dead_lettered(),
{
    lemma_sum_of_pointwise_add(
        timeout_requeued_counts(summary.queues()),
        timeout_dead_lettered_counts(summary.queues()),
        timeout_processed_counts(summary.queues()),
    );
}

// ------------------------------------------------------------ dead letters

pub struct QueueDeadLetterMessagesPurgeSummaryView {
    pub queue_name: Seq<char>,
    pub purged: u64,
}

/// How many retained dead-letter messages were purged from one queue.
#[derive(Debug)]
pub struct QueueDeadLetterMessagesPurgeSummary {
    queue_name: String,
    purged: u64,
}

impl View for QueueDeadLetterMessagesPurgeSummary {
    type V = QueueDeadLetterMessagesPurgeSummaryView;

    closed spec fn view(&self) -> QueueDeadLetterMessagesPurgeSummaryView {
        QueueDeadLetterMessagesPurgeSummaryView { queue_name: self.queue_name@, purged: self.purged }
    }
}

impl QueueDeadLetterMessagesPurgeSummary {
    pub fn new(queue_name: String, purged: u64) -> (r: Self)
        ensures
            r@ == (QueueDeadLetterMessagesPurgeSummaryView { queue_name: queue_name@, purged }),
    {
        QueueDeadLetterMessagesPurgeSummary { queue_name, purged }
    }

    pub fn queue_name(&self) -> (r: &str)
        ensures
            r@ == self@.queue_name,
    {
        self.queue_name.as_str()
    }

    pub fn purged(&self) -> (r: u64)
        ensures
            r == self@.purged,
    {
        self.purged
    }
}

pub open spec fn purged_counts(s: Seq<QueueDeadLetterMessagesPurgeSummary>) -> Seq<int> {
    s.map_values(|q: QueueDeadLetterMessagesPurgeSummary| q@.purged as int)
}

/// Dead-letter messages purged, queue by queue.
#[derive(Debug)]
pub struct DeadLetterMessagesPurgeSummary {
    per_queue: Vec<QueueDeadLetterMessagesPurgeSummary>,
}

impl DeadLetterMessagesPurgeSummary {
    pub closed spec fn queues(&self) -> Seq<QueueDeadLetterMessagesPurgeSummary> {
        self.per_queue@
    }

    pub open spec fn total_purged(&self) -> int {
        sum_of(purged_counts(self.queues()))
    }

    pub fn new(per_queue: Vec<QueueDeadLetterMessagesPurgeSummary>) -> (r: Self)
        ensures
            r.queues() == per_queue@,
    {
        DeadLetterMessagesPurgeSummary { per_queue }
    }

    pub fn per_queue(&self) -> (r: &[QueueDeadLetterMessagesPurgeSummary])
        ensures
            r@ == self.queues(),
    {
        self.per_queue.as_slice()
    }

    /// Dead-letter messages purged, over every queue.
    pub fn purged(&self) -> (r: u64)
        requires
            self.total_purged() <= u64::MAX,
        ensures
            r == self.total_purged(),
    {
        let ghost counts = purged_counts(self.per_queue@);
        proof {
            assert(all_non_negative(counts));
        }
        let mut total: u64 = 0;
        let mut i: usize = 0;
        while i < self.per_queue.len()
            invariant
                counts == purged_counts(self.per_queue@),
                all_non_negative(counts),
                sum_of(counts) <= u64::MAX,
                0 <= i <= self.per_queue@.len(),
                total == sum_of(counts.take(i as int)),
            decreases self.per_queue@.len() - i,
        {
            proof {
                lemma_prefix_sum_step(counts, i as int);
                lemma_prefix_sum_bounded(counts, i + 1);
            }
            total = total + self.per_queue[i].purged;
            i = i + 1;
        }
        proof {
            assert(counts.take(i as int) =~= counts);
        }
        total
    }
}

} // verus!
