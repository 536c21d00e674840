//! What the service records in its metrics: the attributes of HTTP request
//! measurements, the counters the queue's background processing adds to, the
//! bounds on per-queue series, and the outcomes of collections.

use vstd::prelude::*;

use crate::summaries::{
    DeadLetterMessagesPurgeSummary, ExpiredMessagesCleanupSummary, QueueDeadLetterMessagesPurgeSummaryView,
    QueueExpiredMessagesCleanupSummaryView, QueueTimeoutProcessingSummaryView, TimeoutProcessingSummary,
};
use crate::text::str_equal;

verus! {

// ------------------------------------------------------------- cardinality

/// How many series per queue an instrument may hold: one per priority for
/// the per-priority instruments, one per delivery history for expirations,
/// one for the other per-queue counters; other instruments are not bounded.
pub open spec fn series_per_queue(instrument: Seq<char>) -> Option<usize> {
    if instrument == "queue.messages.enqueued"@ || instrument == "queue.messages.ready"@
        || instrument == "queue.messages.in_flight"@ || instrument == "queue.oldest_ready_message.age"@
        || instrument == "queue.oldest_in_flight_message.age"@ {
        Some(3)
    } else if instrument == "queue.messages.expired"@ {
        Some(2)
    } else if instrument == "queue.messages.acknowledged"@ || instrument == "queue.messages.dead_lettered"@
        || instrument == "queue.dead_letter.messages.purged"@ {
        Some(1)
    } else {
        None
    }
}

/// The cardinality limit of an instrument's stream for a service that allows
/// `max_queues` queues, or `None` for an instrument that keeps the default.
pub fn queue_metric_cardinality_limit(instrument: &str, max_queues: u32) -> (r: Option<usize>)
    requires
        max_queues as int * 3 <= usize::MAX,
    ensures
        match series_per_queue(instrument@) {
            Some(m) => r == Some((max_queues as int * m as int) as usize),
            None => r is None,
        },
{
    let multiplier: usize = if str_equal(instrument, "queue.messages.enqueued") || str_equal(instrument, "queue.messages.ready")
        || str_equal(instrument, "queue.messages.in_flight") || str_equal(instrument, "queue.oldest_ready_message.age")
        || str_equal(instrument, "queue.oldest_in_flight_message.age") {
        3
    } else if str_equal(instrument, "queue.messages.expired") {
        2
    } else if str_equal(instrument, "queue.messages.acknowledged") || str_equal(instrument, "queue.messages.dead_lettered")
        || str_equal(instrument, "queue.dead_letter.messages.purged") {
        1
    } else {
        return None;
    };
    Some(max_queues as usize * multiplier)
}

// ------------------------------------------------------------------- HTTP

/// The decimal text of a natural number.
pub open spec fn decimal_text(n: nat) -> Seq<char>
    decreases n,
{
    if n < 10 {
        seq![(48 + n) as char]
    } else {
        decimal_text(n / 10).push((48 + n % 10) as char)
    }
}

/// The decimal digit of a value below ten.
fn digit_text(d: u16) -> (r: &'static str)
    requires
        d < 10,
    ensures
        r@ == seq![(48 + d) as char],
{
    proof {
        reveal_strlit("0");
        reveal_strlit("1");
        reveal_strlit("2");
        reveal_strlit("3");
        reveal_strlit("4");
        reveal_strlit("5");
        reveal_strlit("6");
        reveal_strlit("7");
        reveal_strlit("8");
        reveal_strlit("9");
    }
    match d {
        0 => "0",
        1 => "1",
        2 => "2",
        3 => "3",
        4 => "4",
        5 => "5",
        6 => "6",
        7 => "7",
        8 => "8",
        _ => "9",
    }
}

/// The decimal text of a number, most significant digit first.
fn u16_decimal_text(n: u16) -> (r: String)
    ensures
        r@ == decimal_text(n as nat),
    decreases n,
{
    if n < 10 {
        digit_text(n).to_owned()
    } else {
        let mut text = u16_decimal_text(n / 10);
        text.append(digit_text(n % 10));
        assert(text@ =~= decimal_text((n / 10) as nat).push((48 + n % 10) as char));
        text
    }
}

/// The value of a metric attribute.
#[derive(Debug)]
pub enum AttributeValue {
    Text(String),
    Integer(i64),
}

pub enum AttributeValueView {
    Text(Seq<char>),
    Integer(i64),
}

/// A metric attribute: a semantic-convention key and its value.
#[derive(Debug)]
pub struct MetricAttribute {
    pub key: &'static str,
    pub value: AttributeValue,
}

pub open spec fn attribute_view(a: MetricAttribute) -> (Seq<char>, AttributeValueView) {
    (a.key@, match a.value {
        AttributeValue::Text(s) => AttributeValueView::Text(s@),
        AttributeValue::Integer(i) => AttributeValueView::Integer(i),
    })
}

pub open spec fn attribute_views(s: Seq<MetricAttribute>) -> Seq<(Seq<char>, AttributeValueView)> {
    s.map_values(|a: MetricAttribute| attribute_view(a))
}

/// The attributes of a finished request's duration: method, scheme and
/// status always; the protocol version and the matched route when known; and
/// the status as the error type for server errors.
pub open spec fn request_duration_attribute_views(
    method: Seq<char>,
    scheme: Seq<char>,
    protocol_version: Option<Seq<char>>,
    route: Option<Seq<char>>,
    status_code: u16,
) -> Seq<(Seq<char>, AttributeValueView)> {
    let base = seq![
        ("http.request.method"@, AttributeValueView::Text(method)),
        ("url.scheme"@, AttributeValueView::Text(scheme)),
        ("http.response.status_code"@, AttributeValueView::Integer(status_code as i64)),
    ];
    let with_version = match protocol_version {
        Some(v) => base.push(("network.protocol.version"@, AttributeValueView::Text(v))),
        None => base,
    };
    let with_route = match route {
        Some(r) => with_version.push(("http.route"@, AttributeValueView::Text(r))),
        None => with_version,
    };
    if status_code >= 500 {
        with_route.push(("error.type"@, AttributeValueView::Text(decimal_text(status_code as nat))))
    } else {
        with_route
    }
}

pub open spec fn optional_text(s: Option<String>) -> Option<Seq<char>> {
    match s {
        Some(x) => Some(x@),
        None => None,
    }
}

pub open spec fn optional_static_text(s: Option<&'static str>) -> Option<Seq<char>> {
    match s {
        Some(x) => Some(x@),
        None => None,
    }
}

/// Builds the attributes of a finished request's duration.
pub fn request_duration_attributes(
    method: String,
    scheme: String,
    protocol_version: Option<&'static str>,
    route: Option<String>,
    status_code: u16,
) -> (r: Vec<MetricAttribute>)
    ensures
        attribute_views(r@) == request_duration_attribute_views(
            method@,
            scheme@,
            optional_static_text(protocol_version),
            optional_text(route),
            status_code,
        ),
{
    let ghost route_view = optional_text(route);
    let ghost version_view = optional_static_text(protocol_version);
    let ghost method_view = method@;
    let ghost scheme_view = scheme@;
    let mut attributes: Vec<MetricAttribute> = Vec::new();
    attributes.push(MetricAttribute { key: "http.request.method", value: AttributeValue::Text(method) });
    attributes.push(MetricAttribute { key: "url.scheme", value: AttributeValue::Text(scheme) });
    attributes.push(MetricAttribute { key: "http.response.status_code", value: AttributeValue::Integer(status_code as i64) });
    let ghost base = attribute_views(attributes@);
    assert(base =~= seq![
        ("http.request.method"@, AttributeValueView::Text(method_view)),
        ("url.scheme"@, AttributeValueView::Text(scheme_view)),
        ("http.response.status_code"@, AttributeValueView::Integer(status_code as i64)),
    ]);
    if let Some(version) = protocol_version {
        attributes.push(MetricAttribute { key: "network.protocol.version", value: AttributeValue::Text(version.to_owned()) });
    }
    let ghost with_version = attribute_views(attributes@);
    assert(with_version =~= match version_view {
        Some(v) => base.push(("network.protocol.version"@, AttributeValueView::Text(v))),
        None => base,
    });
    if let Some(route) = route {
        attributes.push(MetricAttribute { key: "http.route", value: AttributeValue::Text(route) });
    }
    let ghost with_route = attribute_views(attributes@);
    assert(with_route =~= match route_view {
        Some(x) => with_version.push(("http.route"@, AttributeValueView::Text(x))),
        None => with_version,
    });
    if status_code >= 500 {
        attributes.push(MetricAttribute { key: "error.type", value: AttributeValue::Text(u16_decimal_text(status_code)) });
    }
    assert(attribute_views(attributes@) =~= request_duration_attribute_views(method_view, scheme_view, version_view, route_view, status_code));
    attributes
}

// ------------------------------------------------------------ outcomes

/// The outcome attribute of a timed operation.
pub fn outcome_label(succeeded: bool) -> (r: &'static str)
    ensures
        r@ == (if succeeded { "success"@ } else { "error"@ }),
{
    if succeeded { "success" } else { "error" }
}

/// How a queue-state collection is recorded: the outcome attribute of its
/// duration, the value of the success gauge, and how much the failure
/// counter grows.
pub fn collection_report(succeeded: bool) -> (r: (&'static str, u64, u64))
    ensures
        r.0@ == (if succeeded { "success"@ } else { "error"@ }),
        r.1 == (if succeeded { 1u64 } else { 0u64 }),
        r.2 == (if succeeded { 0u64 } else { 1u64 }),
{
    if succeeded {
        ("success", 1, 0)
    } else {
        ("error", 0, 1)
    }
}

/// The connections of a pool by state: those in use, never negative, and the idle ones.
pub fn pool_connection_counts(size: u32, idle: usize) -> (r: (u64, u64))
    ensures
        r.1 == idle,
        r.0 == (if size as int >= idle as int { size as int - idle as int } else { 0 }),
{
    let idle = idle as u64;
    let size = size as u64;
    let used = if size >= idle { size - idle } else { 0 };
    (used, idle)
}

// ------------------------------------------------------------- counters

/// The per-queue counters of the background processing.
#[derive(Clone, Copy, Debug, PartialEq, Eq, Structural)]
pub enum QueueCounter {
    MessagesRequeued,
    MessagesDeadLettered,
    MessagesExpired,
    DeadLetterMessagesPurged,
}

/// An addition to a per-queue counter.
#[derive(Debug)]
pub struct CounterIncrement {
    pub counter: QueueCounter,
    pub queue_name: String,
    pub delivery_history: Option<&'static str>,
    pub count: u64,
}

pub struct CounterIncrementView {
    pub counter: QueueCounter,
    pub queue_name: Seq<char>,
    pub delivery_history: Option<Seq<char>>,
    pub count: u64,
}

pub open spec fn increment_view(i: CounterIncrement) -> CounterIncrementView {
    CounterIncrementView {
        counter: i.counter,
        queue_name: i.queue_name@,
        delivery_history: match i.delivery_history { Some(h) => Some(h@), None => None },
        count: i.count,
    }
}

pub open spec fn increment_views(s: Seq<CounterIncrement>) -> Seq<CounterIncrementView> {
    s.map_values(|i: CounterIncrement| increment_view(i))
}

/// The addition of `count` to `counter` for a queue, or nothing when the count is zero.
pub open spec fn nonzero_increment(counter: QueueCounter, queue_name: Seq<char>, history: Option<Seq<char>>, count: u64) -> Seq<CounterIncrementView> {
    if count == 0 {
        Seq::empty()
    } else {
        seq![CounterIncrementView { counter, queue_name, delivery_history: history, count }]
    }
}

/// The counter additions for a visibility-timeout batch: per queue, the
/// requeued and then the dead-lettered deliveries, zero counts skipped.
pub open spec fn timeout_increments(queues: Seq<QueueTimeoutProcessingSummaryView>) -> Seq<CounterIncrementView>
    decreases queues.len(),
{
    if queues.len() == 0 {
        Seq::empty()
    } else {
        let q = queues.last();
        timeout_increments(queues.drop_last())
            + nonzero_increment(QueueCounter::MessagesRequeued, q.queue_name, None, q.requeued)
            + nonzero_increment(QueueCounter::MessagesDeadLettered, q.queue_name, None, q.dead_lettered)
    }
}

/// The counter additions for an expiration batch: per queue, the never and
/// then the previously delivered messages, zero counts skipped.
pub open spec fn expiration_increments(queues: Seq<QueueExpiredMessagesCleanupSummaryView>) -> Seq<CounterIncrementView>
    decreases queues.len(),
{
    if queues.len() == 0 {
        Seq::empty()
    } else {
        let q = queues.last();
        expiration_increments(queues.drop_last())
            + nonzero_increment(QueueCounter::MessagesExpired, q.queue_name, Some("never_delivered"@), q.never_delivered)
            + nonzero_increment(QueueCounter::MessagesExpired, q.queue_name, Some("previously_delivered"@), q.previously_delivered)
    }
}

/// The counter additions for a purge batch: per queue, the purged dead
/// letters, zero counts skipped.
pub open spec fn purge_increments(queues: Seq<QueueDeadLetterMessagesPurgeSummaryView>) -> Seq<CounterIncrementView>
    decreases queues.len(),
{
    if queues.len() == 0 {
        Seq::empty()
    } else {
        let q = queues.last();
        purge_increments(queues.drop_last())
            + nonzero_increment(QueueCounter::DeadLetterMessagesPurged, q.queue_name, None, q.purged)
    }
}

fn push_nonzero(
    increments: &mut Vec<CounterIncrement>,
    counter: QueueCounter,
    queue_name: &str,
    history: Option<&'static str>,
    count: u64,
)
    ensures
        increment_views(final(increments)@) == increment_views(old(increments)@) + nonzero_increment(
            counter,
            queue_name@,
            match history { Some(h) => Some(h@), None => None },
            count,
        ),
{
    let ghost before = increment_views(increments@);
    if count != 0 {
        increments.push(CounterIncrement { counter, queue_name: queue_name.to_owned(), delivery_history: history, count });
    }
    assert(increment_views(increments@) =~= before + nonzero_increment(
        counter,
        queue_name@,
        match history { Some(h) => Some(h@), None => None },
        count,
    ));
}

/// The counter additions a visibility-timeout batch makes.
pub fn timeout_counter_increments(summary: &TimeoutProcessingSummary) -> (r: Vec<CounterIncrement>)
    ensures
        increment_views(r@) == timeout_increments(summary.queues().map_values(|q: crate::summaries::QueueTimeoutProcessingSummary| q@)),
{
    let queues = summary.per_queue();
    let ghost views = queues@.map_values(|q: crate::summaries::QueueTimeoutProcessingSummary| q@);
    let mut increments: Vec<CounterIncrement> = Vec::new();
    let mut i: usize = 0;
    while i < queues.len()
        invariant
            views == queues@.map_values(|q: crate::summaries::QueueTimeoutProcessingSummary| q@),
            0 <= i <= queues@.len(),
            increment_views(increments@) == timeout_increments(views.take(i as int)),
        decreases queues@.len() - i,
    {
        proof {
            assert(views.take(i + 1).drop_last() =~= views.take(i as int));
        }
        let q = &queues[i];
        push_nonzero(&mut increments, QueueCounter::MessagesRequeued, q.queue_name(), None, q.requeued());
        push_nonzero(&mut increments, QueueCounter::MessagesDeadLettered, q.queue_name(), None, q.dead_lettered());
        i = i + 1;
    }
    proof {
        assert(views.take(i as int) =~= views);
    }
    increments
}

/// The counter additions an expiration batch makes.
pub fn expiration_counter_increments(summary: &ExpiredMessagesCleanupSummary) -> (r: Vec<CounterIncrement>)
    ensures
        increment_views(r@) == expiration_increments(summary.queues().map_values(|q: crate::summaries::QueueExpiredMessagesCleanupSummary| q@)),
{
    let queues = summary.per_queue();
    let ghost views = queues@.map_values(|q: crate::summaries::QueueExpiredMessagesCleanupSummary| q@);
    let mut increments: Vec<CounterIncrement> = Vec::new();
    let mut i: usize = 0;
    while i < queues.len()
        invariant
            views == queues@.map_values(|q: crate::summaries::QueueExpiredMessagesCleanupSummary| q@),
            0 <= i <= queues@.len(),
            increment_views(increments@) == expiration_increments(views.take(i as int)),
        decreases queues@.len() - i,
    {
        proof {
            assert(views.take(i + 1).drop_last() =~= views.take(i as int));
        }
        let q = &queues[i];
        push_nonzero(&mut increments, QueueCounter::MessagesExpired, q.queue_name(), Some("never_delivered"), q.never_delivered());
        push_nonzero(&mut increments, QueueCounter::MessagesExpired, q.queue_name(), Some("previously_delivered"), q.previously_delivered());
        i = i + 1;
    }
    proof {
        assert(views.take(i as int) =~= views);
    }
    increments
}

/// The counter additions a dead-letter purge batch makes.
pub fn purge_counter_increments(summary: &DeadLetterMessagesPurgeSummary) -> (r: Vec<CounterIncrement>)
    ensures
        increment_views(r@) == purge_increments(summary.queues().map_values(|q: crate::summaries::QueueDeadLetterMessagesPurgeSummary| q@)),
{
    let queues = summary.per_queue();
    let ghost views = queues@.map_values(|q: crate::summaries::QueueDeadLetterMessagesPurgeSummary| q@);
    let mut increments: Vec<CounterIncrement> = Vec::new();
    let mut i: usize = 0;
    while i < queues.len()
        invariant
            views == queues@.map_values(|q: crate::summaries::QueueDeadLetterMessagesPurgeSummary| q@),
            0 <= i <= queues@.len(),
            increment_views(increments@) == purge_increments(views.take(i as int)),
        decreases queues@.len() - i,
    {
        proof {
            assert(views.take(i + 1).drop_last() =~= views.take(i as int));
        }
        let q = &queues[i];
        push_nonzero(&mut increments, QueueCounter::DeadLetterMessagesPurged, q.queue_name(), None, q.purged());
        i = i + 1;
    }
    proof {
        assert(views.take(i as int) =~= views);
    }
    increments
}

/// No counter is ever increased by zero.
pub proof fn lemma_increments_are_positive(queues: Seq<QueueTimeoutProcessingSummaryView>)
    ensures
        forall|i: int| 0 <= i < timeout_increments(queues).len() ==> (#[trigger] timeout_increments(queues)[i]).count > 0,
    decreases queues.len(),
{
    if queues.len() > 0 {
        lemma_increments_are_positive(queues.drop_last());
    }
}

// -------------------------------------------------- counter-increment laws

/// How much the increments add to `counter` for the queue named `name` under
/// the delivery history `history`.
pub open spec fn added_to(
    s: Seq<CounterIncrementView>,
    counter: QueueCounter,
    name: Seq<char>,
    history: Option<Seq<char>>,
) -> int
    decreases s.len(),
{
    if s.len() == 0 {
        0
    } else {
        let last = s.last();
        added_to(s.drop_last(), counter, name, history) + if last.counter == counter && last.queue_name == name
            && last.delivery_history == history {
            last.count as int
        } else {
            0
        }
    }
}

/// How much the increments add over all counters, queues and histories.
pub open spec fn added_in_total(s: Seq<CounterIncrementView>) -> int
    decreases s.len(),
{
    if s.len() == 0 {
        0
    } else {
        added_in_total(s.drop_last()) + s.last().count
    }
}

/// The never-delivered expirations reported for the queues named `name`.
pub open spec fn never_delivered_of(qs: Seq<QueueExpiredMessagesCleanupSummaryView>, name: Seq<char>) -> int
    decreases qs.len(),
{
    if qs.len() == 0 {
        0
    } else {
        never_delivered_of(qs.drop_last(), name) + if qs.last().queue_name == name { qs.last().never_delivered as int } else { 0 }
    }
}

/// The previously-delivered expirations reported for the queues named `name`.
pub open spec fn previously_delivered_of(qs: Seq<QueueExpiredMessagesCleanupSummaryView>, name: Seq<char>) -> int
    decreases qs.len(),
{
    if qs.len() == 0 {
        0
    } else {
        previously_delivered_of(qs.drop_last(), name) + if qs.last().queue_name == name { qs.last().previously_delivered as int } else { 0 }
    }
}

/// Every expiration reported, over all queues and both delivery histories.
pub open spec fn expired_in_total(qs: Seq<QueueExpiredMessagesCleanupSummaryView>) -> int
    decreases qs.len(),
{
    if qs.len() == 0 {
        0
    } else {
        expired_in_total(qs.drop_last()) + qs.last().never_delivered + qs.last().previously_delivered
    }
}

/// The requeued deliveries reported for the queues named `name`.
pub open spec fn requeued_of(qs: Seq<QueueTimeoutProcessingSummaryView>, name: Seq<char>) -> int
    decreases qs.len(),
{
    if qs.len() == 0 {
        0
    } else {
        requeued_of(qs.drop_last(), name) + if qs.last().queue_name == name { qs.last().requeued as int } else { 0 }
    }
}

/// The dead-lettered deliveries reported for the queues named `name`.
pub open spec fn dead_lettered_of(qs: Seq<QueueTimeoutProcessingSummaryView>, name: Seq<char>) -> int
    decreases qs.len(),
{
    if qs.len() == 0 {
        0
    } else {
        dead_lettered_of(qs.drop_last(), name) + if qs.last().queue_name == name { qs.last().dead_lettered as int } else { 0 }
    }
}

/// The purged dead letters reported for the queues named `name`.
pub open spec fn purged_of(qs: Seq<QueueDeadLetterMessagesPurgeSummaryView>, name: Seq<char>) -> int
    decreases qs.len(),
{
    if qs.len() == 0 {
        0
    } else {
        purged_of(qs.drop_last(), name) + if qs.last().queue_name == name { qs.last().purged as int } else { 0 }
    }
}

pub proof fn lemma_added_to_concat(
    a: Seq<CounterIncrementView>,
    b: Seq<CounterIncrementView>,
    counter: QueueCounter,
    name: Seq<char>,
    history: Option<Seq<char>>,
)
    ensures
        added_to(a + b, counter, name, history) == added_to(a, counter, name, history) + added_to(b, counter, name, history),
        added_in_total(a + b) == added_in_total(a) + added_in_total(b),
    decreases b.len(),
{
    if b.len() == 0 {
        assert(a + b =~= a);
    } else {
        assert((a + b).drop_last() =~= a + b.drop_last());
        assert((a + b).last() == b.last());
        lemma_added_to_concat(a, b.drop_last(), counter, name, history);
    }
}

pub proof fn lemma_added_to_nonzero(
    c: QueueCounter,
    n: Seq<char>,
    h: Option<Seq<char>>,
    k: u64,
    counter: QueueCounter,
    name: Seq<char>,
    history: Option<Seq<char>>,
)
    ensures
        added_to(nonzero_increment(c, n, h, k), counter, name, history)
            == (if c == counter && n == name && h == history { k as int } else { 0 }),
        added_in_total(nonzero_increment(c, n, h, k)) == k,
{
    let s = nonzero_increment(c, n, h, k);
    if k != 0 {
        assert(s.drop_last() =~= Seq::<CounterIncrementView>::empty());
        assert(added_to(s.drop_last(), counter, name, history) == 0);
        assert(added_in_total(s.drop_last()) == 0);
        assert(s.last() == CounterIncrementView { counter: c, queue_name: n, delivery_history: h, count: k });
    } else {
        assert(s.len() == 0);
    }
}

/// An expiration batch adds to the expired-messages counter, for each queue,
/// exactly its never-delivered count under the "never_delivered" history and
/// exactly its previously-delivered count under "previously_delivered"; it
/// adds nothing to any other counter, every addition is positive, and all
/// additions together are the batch's total.
pub proof fn lemma_expiration_counts_by_history(
    qs: Seq<QueueExpiredMessagesCleanupSummaryView>,
    name: Seq<char>,
    counter: QueueCounter,
    history: Option<Seq<char>>,
)
    ensures
        added_to(expiration_increments(qs), QueueCounter::MessagesExpired, name, Some("never_delivered"@)) == never_delivered_of(qs, name),
        added_to(expiration_increments(qs), QueueCounter::MessagesExpired, name, Some("previously_delivered"@))
            == previously_delivered_of(qs, name),
        history != Some("never_delivered"@) && history != Some("previously_delivered"@)
            ==> added_to(expiration_increments(qs), counter, name, history) == 0,
        counter != QueueCounter::MessagesExpired ==> added_to(expiration_increments(qs), counter, name, history) == 0,
        added_in_total(expiration_increments(qs)) == expired_in_total(qs),
        forall|i: int| 0 <= i < expiration_increments(qs).len() ==> (#[trigger] expiration_increments(qs)[i]).count > 0,
    decreases qs.len(),
{
    reveal_strlit("never_delivered");
    reveal_strlit("previously_delivered");
    assert("never_delivered"@.len() != "previously_delivered"@.len());
    if qs.len() > 0 {
        let q = qs.last();
        let prefix = expiration_increments(qs.drop_last());
        let never = nonzero_increment(QueueCounter::MessagesExpired, q.queue_name, Some("never_delivered"@), q.never_delivered);
        let previously = nonzero_increment(
            QueueCounter::MessagesExpired,
            q.queue_name,
            Some("previously_delivered"@),
            q.previously_delivered,
        );
        lemma_expiration_counts_by_history(qs.drop_last(), name, counter, history);
        let hs = seq![Some("never_delivered"@), Some("previously_delivered"@), history];
        let cs = seq![QueueCounter::MessagesExpired, counter];
        assert forall|ci: int, hi: int| 0 <= ci < 2 && 0 <= hi < 3 implies
            added_to(expiration_increments(qs), #[trigger] cs[ci], name, #[trigger] hs[hi])
                == added_to(prefix, cs[ci], name, hs[hi]) + added_to(never, cs[ci], name, hs[hi])
                    + added_to(previously, cs[ci], name, hs[hi]) by {
            lemma_added_to_concat(prefix + never, previously, cs[ci], name, hs[hi]);
            lemma_added_to_concat(prefix, never, cs[ci], name, hs[hi]);
        }
        assert(added_to(expiration_increments(qs), cs[0], name, hs[0]) == added_to(prefix, cs[0], name, hs[0])
            + added_to(never, cs[0], name, hs[0]) + added_to(previously, cs[0], name, hs[0]));
        assert(added_to(expiration_increments(qs), cs[0], name, hs[1]) == added_to(prefix, cs[0], name, hs[1])
            + added_to(never, cs[0], name, hs[1]) + added_to(previously, cs[0], name, hs[1]));
        assert(added_to(expiration_increments(qs), cs[1], name, hs[2]) == added_to(prefix, cs[1], name, hs[2])
            + added_to(never, cs[1], name, hs[2]) + added_to(previously, cs[1], name, hs[2]));
        assert(added_to(expiration_increments(qs), cs[0], name, hs[2]) == added_to(prefix, cs[0], name, hs[2])
            + added_to(never, cs[0], name, hs[2]) + added_to(previously, cs[0], name, hs[2]));
        lemma_added_to_nonzero(QueueCounter::MessagesExpired, q.queue_name, Some("never_delivered"@), q.never_delivered,
            QueueCounter::MessagesExpired, name, Some("never_delivered"@));
        lemma_added_to_nonzero(QueueCounter::MessagesExpired, q.queue_name, Some("previously_delivered"@), q.previously_delivered,
            QueueCounter::MessagesExpired, name, Some("never_delivered"@));
        lemma_added_to_nonzero(QueueCounter::MessagesExpired, q.queue_name, Some("never_delivered"@), q.never_delivered,
            QueueCounter::MessagesExpired, name, Some("previously_delivered"@));
        lemma_added_to_nonzero(QueueCounter::MessagesExpired, q.queue_name, Some("previously_delivered"@), q.previously_delivered,
            QueueCounter::MessagesExpired, name, Some("previously_delivered"@));
        lemma_added_to_nonzero(QueueCounter::MessagesExpired, q.queue_name, Some("never_delivered"@), q.never_delivered,
            counter, name, history);
        lemma_added_to_nonzero(QueueCounter::MessagesExpired, q.queue_name, Some("previously_delivered"@), q.previously_delivered,
            counter, name, history);
        lemma_added_to_nonzero(QueueCounter::MessagesExpired, q.queue_name, Some("never_delivered"@), q.never_delivered,
            QueueCounter::MessagesExpired, name, history);
        lemma_added_to_nonzero(QueueCounter::MessagesExpired, q.queue_name, Some("previously_delivered"@), q.previously_delivered,
            QueueCounter::MessagesExpired, name, history);
        lemma_added_to_concat(prefix + never, previously, counter, name, history);
        lemma_added_to_concat(prefix, never, counter, name, history);
        let e = expiration_increments(qs);
        assert forall|i: int| 0 <= i < e.len() implies (#[trigger] e[i]).count > 0 by {
            if i < prefix.len() {
                assert(e[i] == prefix[i]);
            } else if i < prefix.len() + never.len() {
                assert(e[i] == never[i - prefix.len()]);
            } else {
                assert(e[i] == previously[i - prefix.len() - never.len()]);
            }
        }
    }
}

/// Every visibility-timeout outcome reported, over all queues.
pub open spec fn timed_out_in_total(qs: Seq<QueueTimeoutProcessingSummaryView>) -> int
    decreases qs.len(),
{
    if qs.len() == 0 {
        0
    } else {
        timed_out_in_total(qs.drop_last()) + qs.last().requeued + qs.last().dead_lettered
    }
}

/// Every purged dead letter reported, over all queues.
pub open spec fn purged_in_total(qs: Seq<QueueDeadLetterMessagesPurgeSummaryView>) -> int
    decreases qs.len(),
{
    if qs.len() == 0 {
        0
    } else {
        purged_in_total(qs.drop_last()) + qs.last().purged
    }
}

/// A visibility-timeout batch adds, for each queue, exactly its requeued count
/// to the requeued counter and exactly its dead-lettered count to the
/// dead-lettered counter, with no delivery history; it adds nothing else, and
/// all additions together are the batch's total.
pub proof fn lemma_timeout_counts_by_counter(
    qs: Seq<QueueTimeoutProcessingSummaryView>,
    name: Seq<char>,
    counter: QueueCounter,
    history: Option<Seq<char>>,
)
    ensures
        added_to(timeout_increments(qs), QueueCounter::MessagesRequeued, name, None) == requeued_of(qs, name),
        added_to(timeout_increments(qs), QueueCounter::MessagesDeadLettered, name, None) == dead_lettered_of(qs, name),
        history is Some ==> added_to(timeout_increments(qs), counter, name, history) == 0,
        counter != QueueCounter::MessagesRequeued && counter != QueueCounter::MessagesDeadLettered
            ==> added_to(timeout_increments(qs), counter, name, history) == 0,
        added_in_total(timeout_increments(qs)) == timed_out_in_total(qs),
    decreases qs.len(),
{
    if qs.len() > 0 {
        let q = qs.last();
        let prefix = timeout_increments(qs.drop_last());
        let requeued = nonzero_increment(QueueCounter::MessagesRequeued, q.queue_name, None, q.requeued);
        let dead = nonzero_increment(QueueCounter::MessagesDeadLettered, q.queue_name, None, q.dead_lettered);
        lemma_timeout_counts_by_counter(qs.drop_last(), name, counter, history);
        lemma_added_to_concat(prefix + requeued, dead, QueueCounter::MessagesRequeued, name, None);
        lemma_added_to_concat(prefix, requeued, QueueCounter::MessagesRequeued, name, None);
        lemma_added_to_concat(prefix + requeued, dead, QueueCounter::MessagesDeadLettered, name, None);
        lemma_added_to_concat(prefix, requeued, QueueCounter::MessagesDeadLettered, name, None);
        lemma_added_to_concat(prefix + requeued, dead, counter, name, history);
        lemma_added_to_concat(prefix, requeued, counter, name, history);
        lemma_added_to_nonzero(QueueCounter::MessagesRequeued, q.queue_name, None, q.requeued, QueueCounter::MessagesRequeued, name, None);
        lemma_added_to_nonzero(QueueCounter::MessagesDeadLettered, q.queue_name, None, q.dead_lettered, QueueCounter::MessagesRequeued, name, None);
        lemma_added_to_nonzero(QueueCounter::MessagesRequeued, q.queue_name, None, q.requeued, QueueCounter::MessagesDeadLettered, name, None);
        lemma_added_to_nonzero(QueueCounter::MessagesDeadLettered, q.queue_name, None, q.dead_lettered, QueueCounter::MessagesDeadLettered, name, None);
        lemma_added_to_nonzero(QueueCounter::MessagesRequeued, q.queue_name, None, q.requeued, counter, name, history);
        lemma_added_to_nonzero(QueueCounter::MessagesDeadLettered, q.queue_name, None, q.dead_lettered, counter, name, history);
    }
}

/// A purge batch adds, for each queue, exactly its purged count to the
/// purged-dead-letters counter, with no delivery history; it adds nothing
/// else, every addition is positive, and all additions together are the
/// batch's total.
pub proof fn lemma_purge_counts(
    qs: Seq<QueueDeadLetterMessagesPurgeSummaryView>,
    name: Seq<char>,
    counter: QueueCounter,
    history: Option<Seq<char>>,
)
    ensures
        added_to(purge_increments(qs), QueueCounter::DeadLetterMessagesPurged, name, None) == purged_of(qs, name),
        (counter != QueueCounter::DeadLetterMessagesPurged || history is Some)
            ==> added_to(purge_increments(qs), counter, name, history) == 0,
        added_in_total(purge_increments(qs)) == purged_in_total(qs),
        forall|i: int| 0 <= i < purge_increments(qs).len() ==> (#[trigger] purge_increments(qs)[i]).count > 0,
    decreases qs.len(),
{
    if qs.len() > 0 {
        let q = qs.last();
        let prefix = purge_increments(qs.drop_last());
        let purged = nonzero_increment(QueueCounter::DeadLetterMessagesPurged, q.queue_name, None, q.purged);
        lemma_purge_counts(qs.drop_last(), name, counter, history);
        lemma_added_to_concat(prefix, purged, QueueCounter::DeadLetterMessagesPurged, name, None);
        lemma_added_to_concat(prefix, purged, counter, name, history);
        lemma_added_to_nonzero(QueueCounter::DeadLetterMessagesPurged, q.queue_name, None, q.purged, QueueCounter::DeadLetterMessagesPurged, name, None);
        lemma_added_to_nonzero(QueueCounter::DeadLetterMessagesPurged, q.queue_name, None, q.purged, counter, name, history);
        let e = purge_increments(qs);
        assert forall|i: int| 0 <= i < e.len() implies (#[trigger] e[i]).count > 0 by {
            if i < prefix.len() {
                assert(e[i] == prefix[i]);
            } else {
                assert(e[i] == purged[i - prefix.len()]);
            }
        }
    }
}

/// Each per-priority instrument may hold three series per queue (one per
/// priority), the expired-messages counter two (one per delivery history),
/// the other per-queue counters one; any other instrument keeps the default.
pub proof fn lemma_series_per_queue_by_instrument()
    ensures
        series_per_queue("queue.messages.enqueued"@) == Some(3usize),
        series_per_queue("queue.messages.ready"@) == Some(3usize),
        series_per_queue("queue.messages.in_flight"@) == Some(3usize),
        series_per_queue("queue.oldest_ready_message.age"@) == Some(3usize),
        series_per_queue("queue.oldest_in_flight_message.age"@) == Some(3usize),
        series_per_queue("queue.messages.expired"@) == Some(2usize),
        series_per_queue("queue.messages.acknowledged"@) == Some(1usize),
        series_per_queue("queue.messages.dead_lettered"@) == Some(1usize),
        series_per_queue("queue.dead_letter.messages.purged"@) == Some(1usize),
        series_per_queue("http.server.request.duration"@) is None,
        series_per_queue("queue.state.collection.duration"@) is None,
{
    reveal_strlit("queue.messages.enqueued");
    reveal_strlit("queue.messages.ready");
    reveal_strlit("queue.messages.in_flight");
    reveal_strlit("queue.oldest_ready_message.age");
    reveal_strlit("queue.oldest_in_flight_message.age");
    reveal_strlit("queue.messages.expired");
    reveal_strlit("queue.messages.acknowledged");
    reveal_strlit("queue.messages.dead_lettered");
    reveal_strlit("queue.dead_letter.messages.purged");
    reveal_strlit("http.server.request.duration");
    reveal_strlit("queue.state.collection.duration");
    assert("queue.messages.enqueued"@.len() == 23);
    assert("queue.messages.ready"@.len() == 20);
    assert("queue.messages.in_flight"@.len() == 24);
    assert("queue.oldest_ready_message.age"@.len() == 30);
    assert("queue.oldest_in_flight_message.age"@.len() == 34);
    assert("queue.messages.expired"@.len() == 22);
    assert("queue.messages.acknowledged"@.len() == 27);
    assert("queue.messages.dead_lettered"@.len() == 28);
    assert("queue.dead_letter.messages.purged"@.len() == 33);
    assert("http.server.request.duration"@.len() == 28);
    assert("queue.state.collection.duration"@.len() == 31);
    assert("queue.messages.dead_lettered"@[0] != "http.server.request.duration"@[0]);
}

} // verus!
