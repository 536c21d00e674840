//! Decoding of the rows that the PostgreSQL queries of the repository return.

use vstd::prelude::*;
use vstd::utf8::{decode_utf8, valid_utf8};

use crate::application::{AcknowledgeMessageOutcome, DequeueMessageOutcome};
use crate::message::{priority_for_rank, MessagePriority};
use crate::queue::{QueueDetails, QueueDetailsView};
use crate::summaries::{
    DeadLetterMessagesPurgeSummary, QueueDeadLetterMessagesPurgeSummary, QueueDeadLetterMessagesPurgeSummaryView,
    ExpiredMessagesCleanupSummary, QueueExpiredMessagesCleanupSummary, QueueExpiredMessagesCleanupSummaryView,
    QueueTimeoutProcessingSummary, QueueTimeoutProcessingSummaryView, TimeoutProcessingSummary,
};

verus! {

/// Why a row returned by the database could not be read.
#[derive(Clone, Copy, Debug, PartialEq, Eq, Structural)]
pub enum RowDecodeError {
    InvalidPayload,
    InvalidPriorityRank(i16),
    NegativeDeliveryAttempts,
    IncompleteLease,
    NegativeRequeueCount,
    NegativeDeadLetterCount,
    NegativeNeverDeliveredCount,
    NegativePreviouslyDeliveredCount,
    NegativeReadyCount,
    NegativeInFlightCount,
    NegativePurgeCount,
    NegativeQueueSetting,
}

/// `String::from_utf8`, which std documents to succeed exactly on valid UTF-8
/// and then to hold the decoded text.
#[verifier::external_body]
fn string_from_utf8(bytes: Vec<u8>) -> (r: Option<String>)
    ensures
        r is Some <==> valid_utf8(bytes@),
        r matches Some(s) ==> s@ == decode_utf8(bytes@),
{
    String::from_utf8(bytes).ok()
}

/// A count the database reports as a signed integer, read as unsigned.
pub fn count_from_row(count: i64) -> (r: Option<u64>)
    ensures
        count >= 0 ==> r == Some(count as u64),
        count < 0 ==> r is None,
{
    if count >= 0 {
        Some(count as u64)
    } else {
        None
    }
}

/// Reads the row of a dequeue: whether the queue exists, and the fields of the
/// leased message, all present or all absent. A lease is read in the order
/// payload, priority rank, delivery attempts; a mix of present and absent
/// fields is an incomplete lease.
pub fn decode_dequeue_row(
    queue_exists: bool,
    id: Option<u128>,
    payload: Option<Vec<u8>>,
    priority: Option<i16>,
    delivery_attempts: Option<i16>,
    receipt_handle: u128,
) -> (r: Result<DequeueMessageOutcome, RowDecodeError>)
    ensures
        !queue_exists ==> r matches Ok(DequeueMessageOutcome::QueueNotFound),
        queue_exists ==> match (id, payload, priority, delivery_attempts) {
            (None, None, None, None) => r matches Ok(DequeueMessageOutcome::Empty),
            (Some(i), Some(p), Some(rank), Some(attempts)) =>
                if !valid_utf8(p@) {
                    r == Err::<DequeueMessageOutcome, RowDecodeError>(RowDecodeError::InvalidPayload)
                } else if priority_for_rank(rank) is None {
                    r == Err::<DequeueMessageOutcome, RowDecodeError>(RowDecodeError::InvalidPriorityRank(rank))
                } else if attempts < 0 {
                    r == Err::<DequeueMessageOutcome, RowDecodeError>(RowDecodeError::NegativeDeliveryAttempts)
                } else {
                    r matches Ok(DequeueMessageOutcome::Dequeued { id: oi, payload: op, priority: opr, receipt_handle: oh, delivery_attempts: oa })
                        && oi == i && op@ == decode_utf8(p@) && Some(opr) == priority_for_rank(rank)
                        && oh == receipt_handle && oa == attempts
                },
            _ => r == Err::<DequeueMessageOutcome, RowDecodeError>(RowDecodeError::IncompleteLease),
        },
{
    if !queue_exists {
        return Ok(DequeueMessageOutcome::QueueNotFound);
    }
    match (id, payload, priority, delivery_attempts) {
        (None, None, None, None) => Ok(DequeueMessageOutcome::Empty),
        (Some(i), Some(p), Some(rank), Some(attempts)) => {
            let text = match string_from_utf8(p) {
                Some(t) => t,
                None => return Err(RowDecodeError::InvalidPayload),
            };
            let priority = match MessagePriority::from_rank(rank) {
                Some(p) => p,
                None => return Err(RowDecodeError::InvalidPriorityRank(rank)),
            };
            if attempts < 0 {
                return Err(RowDecodeError::NegativeDeliveryAttempts);
            }
            Ok(DequeueMessageOutcome::Dequeued {
                id: i,
                payload: text,
                priority,
                receipt_handle,
                delivery_attempts: attempts as u16,
            })
        },
        _ => Err(RowDecodeError::IncompleteLease),
    }
}

/// Reads the row of an acknowledgement: a deleted delivery is acknowledged
/// whatever else the row says; otherwise a missing queue, then a missing
/// message, then a stale or foreign receipt handle explains the refusal.
pub fn decode_acknowledge_row(queue_exists: bool, message_exists: bool, acknowledged: bool) -> (r: AcknowledgeMessageOutcome)
    ensures
        r == (if acknowledged {
            AcknowledgeMessageOutcome::Acknowledged
        } else if !queue_exists {
            AcknowledgeMessageOutcome::QueueNotFound
        } else if !message_exists {
            AcknowledgeMessageOutcome::MessageNotFound
        } else {
            AcknowledgeMessageOutcome::ReceiptHandleInvalid
        }),
{
    if acknowledged {
        AcknowledgeMessageOutcome::Acknowledged
    } else if !queue_exists {
        AcknowledgeMessageOutcome::QueueNotFound
    } else if !message_exists {
        AcknowledgeMessageOutcome::MessageNotFound
    } else {
        AcknowledgeMessageOutcome::ReceiptHandleInvalid
    }
}

/// A row of the visibility-timeout query: queue name, requeued, dead-lettered.
pub open spec fn timeout_row_error(row: (String, i64, i64)) -> Option<RowDecodeError> {
    if row.1 < 0 {
        Some(RowDecodeError::NegativeRequeueCount)
    } else if row.2 < 0 {
        Some(RowDecodeError::NegativeDeadLetterCount)
    } else {
        None
    }
}

/// Reads the rows of the visibility-timeout query, one per affected queue;
/// the first row with a negative count is refused.
pub fn decode_timeout_rows(rows: Vec<(String, i64, i64)>) -> (r: Result<TimeoutProcessingSummary, RowDecodeError>)
    ensures
        match r {
            Ok(s) => (forall|i: int| 0 <= i < rows@.len() ==> timeout_row_error(#[trigger] rows@[i]) is None)
                && s.queues().len() == rows@.len()
                && forall|i: int| 0 <= i < rows@.len() ==> (#[trigger] s.queues()[i])@ == (QueueTimeoutProcessingSummaryView {
                    queue_name: rows@[i].0@,
                    requeued: rows@[i].1 as u64,
                    dead_lettered: rows@[i].2 as u64,
                }),
            Err(e) => exists|i: int| 0 <= i < rows@.len() && timeout_row_error(#[trigger] rows@[i]) == Some(e)
                && forall|j: int| 0 <= j < i ==> timeout_row_error(#[trigger] rows@[j]) is None,
        },
{
    let mut per_queue: Vec<QueueTimeoutProcessingSummary> = Vec::new();
    let mut i: usize = 0;
    while i < rows.len()
        invariant
            0 <= i <= rows@.len(),
            per_queue@.len() == i,
            forall|j: int| 0 <= j < i ==> timeout_row_error(#[trigger] rows@[j]) is None,
            forall|j: int| 0 <= j < i ==> (#[trigger] per_queue@[j])@ == (QueueTimeoutProcessingSummaryView {
                queue_name: rows@[j].0@,
                requeued: rows@[j].1 as u64,
                dead_lettered: rows@[j].2 as u64,
            }),
        decreases rows@.len() - i,
    {
        let row = &rows[i];
        let requeued = match count_from_row(row.1) {
            Some(c) => c,
            None => return Err(RowDecodeError::NegativeRequeueCount),
        };
        let dead_lettered = match count_from_row(row.2) {
            Some(c) => c,
            None => return Err(RowDecodeError::NegativeDeadLetterCount),
        };
        per_queue.push(QueueTimeoutProcessingSummary::new(row.0.clone(), requeued, dead_lettered));
        i = i + 1;
    }
    Ok(TimeoutProcessingSummary::new(per_queue))
}

/// A row of the expiration query: queue name, never delivered, previously delivered.
pub open spec fn expired_row_error(row: (String, i64, i64)) -> Option<RowDecodeError> {
    if row.1 < 0 {
        Some(RowDecodeError::NegativeNeverDeliveredCount)
    } else if row.2 < 0 {
        Some(RowDecodeError::NegativePreviouslyDeliveredCount)
    } else {
        None
    }
}

/// Reads the rows of the expiration query, one per affected queue; the first
/// row with a negative count is refused.
pub fn decode_expired_rows(rows: Vec<(String, i64, i64)>) -> (r: Result<ExpiredMessagesCleanupSummary, RowDecodeError>)
    ensures
        match r {
            Ok(s) => (forall|i: int| 0 <= i < rows@.len() ==> expired_row_error(#[trigger] rows@[i]) is None)
                && s.queues().len() == rows@.len()
                && forall|i: int| 0 <= i < rows@.len() ==> (#[trigger] s.queues()[i])@ == (QueueExpiredMessagesCleanupSummaryView {
                    queue_name: rows@[i].0@,
                    never_delivered: rows@[i].1 as u64,
                    previously_delivered: rows@[i].2 as u64,
                }),
            Err(e) => exists|i: int| 0 <= i < rows@.len() && expired_row_error(#[trigger] rows@[i]) == Some(e)
                && forall|j: int| 0 <= j < i ==> expired_row_error(#[trigger] rows@[j]) is None,
        },
{
    let mut per_queue: Vec<QueueExpiredMessagesCleanupSummary> = Vec::new();
    let mut i: usize = 0;
    while i < rows.len()
        invariant
            0 <= i <= rows@.len(),
            per_queue@.len() == i,
            forall|j: int| 0 <= j < i ==> expired_row_error(#[trigger] rows@[j]) is None,
            forall|j: int| 0 <= j < i ==> (#[trigger] per_queue@[j])@ == (QueueExpiredMessagesCleanupSummaryView {
                queue_name: rows@[j].0@,
                never_delivered: rows@[j].1 as u64,
                previously_delivered: rows@[j].2 as u64,
            }),
        decreases rows@.len() - i,
    {
        let row = &rows[i];
        let never_delivered = match count_from_row(row.1) {
            Some(c) => c,
            None => return Err(RowDecodeError::NegativeNeverDeliveredCount),
        };
        let previously_delivered = match count_from_row(row.2) {
            Some(c) => c,
            None => return Err(RowDecodeError::NegativePreviouslyDeliveredCount),
        };
        per_queue.push(QueueExpiredMessagesCleanupSummary::new(row.0.clone(), never_delivered, previously_delivered));
        i = i + 1;
    }
    Ok(ExpiredMessagesCleanupSummary::new(per_queue))
}

/// Reads the counted part of a queue-state row: the priority rank, the ready
/// count and the in-flight count, checked in that order.
pub fn decode_state_counts(priority: i16, ready: i64, in_flight: i64) -> (r: Result<(MessagePriority, u64, u64), RowDecodeError>)
    ensures
        if priority_for_rank(priority) is None {
            r == Err::<(MessagePriority, u64, u64), RowDecodeError>(RowDecodeError::InvalidPriorityRank(priority))
        } else if ready < 0 {
            r == Err::<(MessagePriority, u64, u64), RowDecodeError>(RowDecodeError::NegativeReadyCount)
        } else if in_flight < 0 {
            r == Err::<(MessagePriority, u64, u64), RowDecodeError>(RowDecodeError::NegativeInFlightCount)
        } else {
            r == Ok::<(MessagePriority, u64, u64), RowDecodeError>((priority_for_rank(priority)->Some_0, ready as u64, in_flight as u64))
        },
{
    let p = match MessagePriority::from_rank(priority) {
        Some(p) => p,
        None => return Err(RowDecodeError::InvalidPriorityRank(priority)),
    };
    let ready = match count_from_row(ready) {
        Some(c) => c,
        None => return Err(RowDecodeError::NegativeReadyCount),
    };
    let in_flight = match count_from_row(in_flight) {
        Some(c) => c,
        None => return Err(RowDecodeError::NegativeInFlightCount),
    };
    Ok((p, ready, in_flight))
}

/// Reads the rows of the dead-letter purge query, one per affected queue;
/// the first row with a negative count is refused.
pub fn decode_purge_rows(rows: Vec<(String, i64)>) -> (r: Result<DeadLetterMessagesPurgeSummary, RowDecodeError>)
    ensures
        match r {
            Ok(s) => (forall|i: int| 0 <= i < rows@.len() ==> (#[trigger] rows@[i]).1 >= 0)
                && s.queues().len() == rows@.len()
                && forall|i: int| 0 <= i < rows@.len() ==> (#[trigger] s.queues()[i])@ == (QueueDeadLetterMessagesPurgeSummaryView {
                    queue_name: rows@[i].0@,
                    purged: rows@[i].1 as u64,
                }),
            Err(e) => e == RowDecodeError::NegativePurgeCount && exists|i: int| 0 <= i < rows@.len() && (#[trigger] rows@[i]).1 < 0,
        },
{
    let mut per_queue: Vec<QueueDeadLetterMessagesPurgeSummary> = Vec::new();
    let mut i: usize = 0;
    while i < rows.len()
        invariant
            0 <= i <= rows@.len(),
            per_queue@.len() == i,
            forall|j: int| 0 <= j < i ==> (#[trigger] rows@[j]).1 >= 0,
            forall|j: int| 0 <= j < i ==> (#[trigger] per_queue@[j])@ == (QueueDeadLetterMessagesPurgeSummaryView {
                queue_name: rows@[j].0@,
                purged: rows@[j].1 as u64,
            }),
        decreases rows@.len() - i,
    {
        let row = &rows[i];
        let purged = match count_from_row(row.1) {
            Some(c) => c,
            None => return Err(RowDecodeError::NegativePurgeCount),
        };
        per_queue.push(QueueDeadLetterMessagesPurgeSummary::new(row.0.clone(), purged));
        i = i + 1;
    }
    Ok(DeadLetterMessagesPurgeSummary::new(per_queue))
}

/// Reads a queue row: its identifier, name and settings as the database
/// columns hold them; a negative setting is refused.
pub fn decode_queue_row(
    id: u128,
    name: String,
    visibility_timeout_seconds: i32,
    max_delivery_attempts: i16,
    default_message_ttl_seconds: i32,
) -> (r: Result<QueueDetails, RowDecodeError>)
    ensures
        visibility_timeout_seconds < 0 || max_delivery_attempts < 0 || default_message_ttl_seconds < 0
            ==> r == Err::<QueueDetails, RowDecodeError>(RowDecodeError::NegativeQueueSetting),
        visibility_timeout_seconds >= 0 && max_delivery_attempts >= 0 && default_message_ttl_seconds >= 0
            ==> (r matches Ok(d) && d@ == (QueueDetailsView {
                id,
                name: name@,
                visibility_timeout_seconds: visibility_timeout_seconds as u32,
                max_delivery_attempts: max_delivery_attempts as u16,
                default_message_ttl_seconds: default_message_ttl_seconds as u32,
            })),
{
    if visibility_timeout_seconds < 0 || max_delivery_attempts < 0 || default_message_ttl_seconds < 0 {
        return Err(RowDecodeError::NegativeQueueSetting);
    }
    Ok(QueueDetails::new(
        id,
        name,
        visibility_timeout_seconds as u32,
        max_delivery_attempts as u16,
        default_message_ttl_seconds as u32,
    ))
}

} // verus!
