use retsu::application::{AcknowledgeMessageOutcome, DequeueMessageOutcome};
use retsu::message::MessagePriority;
use retsu::metrics::{
    collection_report, expiration_counter_increments, outcome_label, pool_connection_counts,
    purge_counter_increments, queue_metric_cardinality_limit, request_duration_attributes,
    timeout_counter_increments, AttributeValue, QueueCounter,
};
use retsu::rows::{
    count_from_row, decode_acknowledge_row, decode_dequeue_row, decode_expired_rows, decode_state_counts,
    decode_timeout_rows, RowDecodeError,
};
use retsu::summaries::{
    DeadLetterMessagesPurgeSummary, ExpiredMessagesCleanupSummary, QueueDeadLetterMessagesPurgeSummary,
    QueueExpiredMessagesCleanupSummary, QueueTimeoutProcessingSummary, TimeoutProcessingSummary,
};
use retsu::workers::{
    after_cleaner_batch, after_leadership_attempt, after_visibility_timeout_batch, batch_is_reported,
    combine_shutdown_results, CleanerSchedule, LeadershipStep, NextBatch, ShutdownFailure,
};

#[test]
fn decodes_dequeue_rows() {
    assert!(matches!(decode_dequeue_row(false, None, None, None, None, 9), Ok(DequeueMessageOutcome::QueueNotFound)));
    assert!(matches!(decode_dequeue_row(true, None, None, None, None, 9), Ok(DequeueMessageOutcome::Empty)));
    match decode_dequeue_row(true, Some(1), Some(b"{\"job\":42}".to_vec()), Some(3), Some(2), 9) {
        Ok(DequeueMessageOutcome::Dequeued { id, payload, priority, receipt_handle, delivery_attempts }) => {
            assert_eq!(id, 1);
            assert_eq!(payload, "{\"job\":42}");
            assert_eq!(priority, MessagePriority::High);
            assert_eq!(receipt_handle, 9);
            assert_eq!(delivery_attempts, 2);
        }
        other => panic!("unexpected outcome {other:?}"),
    }
    assert!(matches!(
        decode_dequeue_row(true, Some(1), Some(vec![0xff, 0xfe]), Some(3), Some(2), 9),
        Err(RowDecodeError::InvalidPayload)
    ));
    assert!(matches!(
        decode_dequeue_row(true, Some(1), Some(b"x".to_vec()), Some(7), Some(2), 9),
        Err(RowDecodeError::InvalidPriorityRank(7))
    ));
    assert!(matches!(
        decode_dequeue_row(true, Some(1), Some(b"x".to_vec()), Some(1), Some(-1), 9),
        Err(RowDecodeError::NegativeDeliveryAttempts)
    ));
    assert!(matches!(
        decode_dequeue_row(true, Some(1), None, Some(1), Some(1), 9),
        Err(RowDecodeError::IncompleteLease)
    ));
}

#[test]
fn decodes_acknowledgement_rows() {
    assert_eq!(decode_acknowledge_row(false, false, true), AcknowledgeMessageOutcome::Acknowledged);
    assert_eq!(decode_acknowledge_row(false, true, false), AcknowledgeMessageOutcome::QueueNotFound);
    assert_eq!(decode_acknowledge_row(true, false, false), AcknowledgeMessageOutcome::MessageNotFound);
    assert_eq!(decode_acknowledge_row(true, true, false), AcknowledgeMessageOutcome::ReceiptHandleInvalid);
}

#[test]
fn decodes_counts_and_refuses_negative_ones() {
    assert_eq!(count_from_row(0), Some(0));
    assert_eq!(count_from_row(-1), None);

    let summary = decode_timeout_rows(vec![("a".to_owned(), 3, 1), ("b".to_owned(), 0, 2)]).unwrap();
    assert_eq!(summary.requeued(), 3);
    assert_eq!(summary.dead_lettered(), 3);
    assert_eq!(summary.per_queue()[1].queue_name(), "b");
    assert_eq!(
        decode_timeout_rows(vec![("a".to_owned(), 3, 1), ("b".to_owned(), 0, -2)]).unwrap_err(),
        RowDecodeError::NegativeDeadLetterCount
    );
    assert_eq!(
        decode_timeout_rows(vec![("a".to_owned(), -3, -1)]).unwrap_err(),
        RowDecodeError::NegativeRequeueCount
    );

    let expired = decode_expired_rows(vec![("a".to_owned(), 31, 11)]).unwrap();
    assert_eq!(expired.processed(), 42);
    assert_eq!(
        decode_expired_rows(vec![("a".to_owned(), -1, 0)]).unwrap_err(),
        RowDecodeError::NegativeNeverDeliveredCount
    );
    assert_eq!(
        decode_expired_rows(vec![("a".to_owned(), 1, -1)]).unwrap_err(),
        RowDecodeError::NegativePreviouslyDeliveredCount
    );

    assert_eq!(decode_state_counts(2, 4, 5), Ok((MessagePriority::Medium, 4, 5)));
    assert_eq!(decode_state_counts(0, 4, 5), Err(RowDecodeError::InvalidPriorityRank(0)));
    assert_eq!(decode_state_counts(1, -4, -5), Err(RowDecodeError::NegativeReadyCount));
    assert_eq!(decode_state_counts(1, 4, -5), Err(RowDecodeError::NegativeInFlightCount));
}

#[test]
fn bounds_per_queue_series() {
    assert_eq!(queue_metric_cardinality_limit("queue.messages.ready", 10_000), Some(30_000));
    assert_eq!(queue_metric_cardinality_limit("queue.oldest_in_flight_message.age", 7), Some(21));
    assert_eq!(queue_metric_cardinality_limit("queue.messages.expired", 10_000), Some(20_000));
    assert_eq!(queue_metric_cardinality_limit("queue.dead_letter.messages.purged", 10_000), Some(10_000));
    assert_eq!(queue_metric_cardinality_limit("http.server.request.duration", 10_000), None);
}

fn text(value: &AttributeValue) -> Option<&str> {
    match value {
        AttributeValue::Text(s) => Some(s.as_str()),
        AttributeValue::Integer(_) => None,
    }
}

#[test]
fn request_duration_uses_bounded_semantic_attribute_keys() {
    let success = request_duration_attributes(
        "GET".to_owned(),
        "https".to_owned(),
        Some("1.1"),
        Some("/items/{identifier}".to_owned()),
        200,
    );
    let keys: Vec<&str> = success.iter().map(|a| a.key).collect();
    assert_eq!(
        keys,
        vec!["http.request.method", "url.scheme", "http.response.status_code", "network.protocol.version", "http.route"]
    );
    assert_eq!(text(&success[0].value), Some("GET"));
    assert!(matches!(success[2].value, AttributeValue::Integer(200)));
    assert_eq!(text(&success[4].value), Some("/items/{identifier}"));

    let failure = request_duration_attributes("POST".to_owned(), "http".to_owned(), None, None, 503);
    let keys: Vec<&str> = failure.iter().map(|a| a.key).collect();
    assert_eq!(keys, vec!["http.request.method", "url.scheme", "http.response.status_code", "error.type"]);
    assert_eq!(text(&failure[3].value), Some("503"));

    let edge = request_duration_attributes("GET".to_owned(), "http".to_owned(), None, None, 499);
    assert_eq!(edge.len(), 3);
    let zero = request_duration_attributes("GET".to_owned(), "http".to_owned(), None, None, 500);
    assert_eq!(text(&zero[3].value), Some("500"));
}

#[test]
fn records_outcomes_and_pool_usage() {
    assert_eq!(outcome_label(true), "success");
    assert_eq!(outcome_label(false), "error");
    assert_eq!(collection_report(true), ("success", 1, 0));
    assert_eq!(collection_report(false), ("error", 0, 1));
    assert_eq!(pool_connection_counts(10, 3), (7, 3));
    assert_eq!(pool_connection_counts(2, 3), (0, 3));
}

#[test]
fn counters_skip_zero_counts() {
    let timeouts = TimeoutProcessingSummary::new(vec![
        QueueTimeoutProcessingSummary::new("a".to_owned(), 3, 0),
        QueueTimeoutProcessingSummary::new("b".to_owned(), 0, 2),
    ]);
    let increments = timeout_counter_increments(&timeouts);
    assert_eq!(increments.len(), 2);
    assert_eq!(increments[0].counter, QueueCounter::MessagesRequeued);
    assert_eq!(increments[0].queue_name, "a");
    assert_eq!(increments[0].count, 3);
    assert_eq!(increments[1].counter, QueueCounter::MessagesDeadLettered);
    assert_eq!(increments[1].queue_name, "b");

    let expired = ExpiredMessagesCleanupSummary::new(vec![QueueExpiredMessagesCleanupSummary::new("a".to_owned(), 31, 11)]);
    let increments = expiration_counter_increments(&expired);
    assert_eq!(increments.len(), 2);
    assert_eq!(increments[0].delivery_history, Some("never_delivered"));
    assert_eq!(increments[1].delivery_history, Some("previously_delivered"));
    assert_eq!(increments[1].count, 11);

    let purged = DeadLetterMessagesPurgeSummary::new(vec![
        QueueDeadLetterMessagesPurgeSummary::new("a".to_owned(), 0),
        QueueDeadLetterMessagesPurgeSummary::new("b".to_owned(), 4),
    ]);
    let increments = purge_counter_increments(&purged);
    assert_eq!(increments.len(), 1);
    assert_eq!(increments[0].counter, QueueCounter::DeadLetterMessagesPurged);
    assert_eq!(increments[0].count, 4);
}

#[test]
fn paces_workers_between_batches() {
    assert_eq!(after_visibility_timeout_batch(500), NextBatch::Immediately);
    assert_eq!(after_visibility_timeout_batch(499), NextBatch::After(5000));
    assert_eq!(after_visibility_timeout_batch(0), NextBatch::After(5000));

    let schedule = CleanerSchedule { batch_size: 100, processing_interval_millis: 30_000, saturated_batch_delay_millis: 50 };
    assert_eq!(after_cleaner_batch(&schedule, 100), NextBatch::After(50));
    assert_eq!(after_cleaner_batch(&schedule, 99), NextBatch::After(30_000));
    assert!(batch_is_reported(1));
    assert!(!batch_is_reported(0));

    assert!(matches!(after_leadership_attempt(Some(7)), LeadershipStep::Lead(7)));
    assert!(matches!(after_leadership_attempt::<u8>(None), LeadershipStep::StandBy));
}

#[test]
fn shutdown_reports_metrics_failures_first() {
    assert!(combine_shutdown_results::<&str, &str>(Ok(()), None).is_ok());
    assert!(combine_shutdown_results::<&str, &str>(Ok(()), Some(Ok(()))).is_ok());
    assert!(matches!(combine_shutdown_results(Err("m"), Some(Err("t"))), Err(ShutdownFailure::Metrics("m"))));
    assert!(matches!(combine_shutdown_results::<&str, &str>(Ok(()), Some(Err("t"))), Err(ShutdownFailure::Traces("t"))));
}
