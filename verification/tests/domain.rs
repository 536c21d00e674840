use retsu::message::{Message, MessagePriority, MessageValidationError};
use retsu::queue::{
    Queue, QueueNameError, QueueSettingsError, QueueValidationError, DEFAULT_MAX_DELIVERY_ATTEMPTS,
    DEFAULT_MESSAGE_TTL_SECONDS, DEFAULT_VISIBILITY_TIMEOUT_SECONDS, MAX_MAX_DELIVERY_ATTEMPTS,
    MAX_VISIBILITY_TIMEOUT_SECONDS,
};
use retsu::message::MAX_MESSAGE_TTL_SECONDS;
use retsu::queue::QueueConfigurationUpdate;
use uuid::{Uuid, Version};

#[test]
fn creates_stable_ids_and_preserves_the_priority_persistence_contract() {
    let cases = [("HIGH", 3), ("MEDIUM", 2), ("LOW", 1)];

    for (label, rank) in cases {
        let message = Message::new("payload".to_owned(), label.to_owned(), None)
            .expect("supported priority should be valid");

        assert_eq!(Uuid::from_u128(message.id()).get_version(), Some(Version::SortRand));
        assert_eq!(message.priority().as_str(), label);
        assert_eq!(message.priority().rank(), rank);
        assert_eq!(
            MessagePriority::from_rank(rank)
                .expect("persisted priority rank should be readable")
                .as_str(),
            label
        );
    }
}

#[test]
fn queue_creates_queues_with_uuid_v7_defaults_and_supported_boundaries() {
    let queue = Queue::new("email-delivery".to_owned(), None, None, None)
        .expect("valid queue should be created");

    assert_eq!(Uuid::from_u128(queue.id()).get_version(), Some(Version::SortRand));
    assert_eq!(queue.visibility_timeout_seconds(), DEFAULT_VISIBILITY_TIMEOUT_SECONDS);
    assert_eq!(queue.max_delivery_attempts(), DEFAULT_MAX_DELIVERY_ATTEMPTS);

    let maximum_length_name = format!("a{}z", "b".repeat(62));
    let boundary_queue = Queue::new(
        maximum_length_name.clone(),
        Some(MAX_VISIBILITY_TIMEOUT_SECONDS),
        Some(MAX_MAX_DELIVERY_ATTEMPTS),
        None,
    )
    .expect("boundary values should be accepted");

    assert_eq!(boundary_queue.name(), maximum_length_name);
    assert_eq!(boundary_queue.visibility_timeout_seconds(), MAX_VISIBILITY_TIMEOUT_SECONDS);
    assert_eq!(boundary_queue.max_delivery_attempts(), MAX_MAX_DELIVERY_ATTEMPTS);
}

#[test]
fn domain_queue_creates_queues_with_uuid_v7_defaults_and_supported_boundaries() {
    let queue = Queue::new("email-delivery".to_owned(), None, None, None)
        .expect("valid queue should be created");

    assert_eq!(Uuid::from_u128(queue.id()).get_version(), Some(Version::SortRand));
    assert_eq!(queue.visibility_timeout_seconds(), DEFAULT_VISIBILITY_TIMEOUT_SECONDS);
    assert_eq!(queue.max_delivery_attempts(), DEFAULT_MAX_DELIVERY_ATTEMPTS);

    let maximum_length_name = format!("a{}z", "b".repeat(62));
    let boundary_queue = Queue::new(
        maximum_length_name.clone(),
        Some(MAX_VISIBILITY_TIMEOUT_SECONDS),
        Some(MAX_MAX_DELIVERY_ATTEMPTS),
        Some(MAX_MESSAGE_TTL_SECONDS),
    )
    .expect("boundary values should be accepted");

    assert_eq!(boundary_queue.name(), maximum_length_name);
    assert_eq!(boundary_queue.visibility_timeout_seconds(), MAX_VISIBILITY_TIMEOUT_SECONDS);
    assert_eq!(boundary_queue.max_delivery_attempts(), MAX_MAX_DELIVERY_ATTEMPTS);
}

fn invalid_names() -> Vec<String> {
    vec![
        String::new(),
        "Uppercase".to_owned(),
        "-leading".to_owned(),
        "trailing-".to_owned(),
        "contains space".to_owned(),
        "non-ascii-é".to_owned(),
        "a".repeat(65),
    ]
}

#[test]
fn queue_rejects_noncanonical_queue_names() {
    for name in invalid_names() {
        assert!(
            matches!(Queue::new(name, None, None, None), Err(QueueValidationError::InvalidName(_))),
            "invalid queue name should be rejected"
        );
    }
}

#[test]
fn domain_queue_rejects_noncanonical_queue_names() {
    for name in invalid_names() {
        assert!(
            matches!(Queue::new(name, None, None, None), Err(QueueValidationError::InvalidName(_))),
            "invalid queue name should be rejected"
        );
    }
}

fn invalid_settings() -> [(Option<u32>, Option<u16>); 4] {
    [
        (Some(0), None),
        (Some(MAX_VISIBILITY_TIMEOUT_SECONDS + 1), None),
        (None, Some(0)),
        (None, Some(MAX_MAX_DELIVERY_ATTEMPTS + 1)),
    ]
}

#[test]
fn queue_rejects_queue_settings_outside_supported_ranges() {
    for (visibility_timeout_seconds, max_delivery_attempts) in invalid_settings() {
        assert!(
            matches!(
                Queue::new("email-delivery".to_owned(), visibility_timeout_seconds, max_delivery_attempts, None),
                Err(QueueValidationError::InvalidSettings(_))
            ),
            "invalid queue settings should be rejected"
        );
    }
}

#[test]
fn domain_queue_rejects_queue_settings_outside_supported_ranges() {
    for (visibility_timeout_seconds, max_delivery_attempts) in invalid_settings() {
        assert!(
            matches!(
                Queue::new("email-delivery".to_owned(), visibility_timeout_seconds, max_delivery_attempts, None),
                Err(QueueValidationError::InvalidSettings(_))
            ),
            "invalid queue settings should be rejected"
        );
    }
}

#[test]
fn queue_name_errors_distinguish_length_from_format() {
    assert!(matches!(
        Queue::new(String::new(), None, None, None),
        Err(QueueValidationError::InvalidName(QueueNameError::InvalidLength))
    ));
    assert!(matches!(
        Queue::new("a".repeat(65), None, None, None),
        Err(QueueValidationError::InvalidName(QueueNameError::InvalidLength))
    ));
    assert!(matches!(
        Queue::new("non-ascii-é".to_owned(), None, None, None),
        Err(QueueValidationError::InvalidName(QueueNameError::InvalidFormat))
    ));
    assert!(Queue::new("a".to_owned(), None, None, None).is_ok());
    assert!(Queue::new("0.a_b-9".to_owned(), None, None, None).is_ok());
    assert!(Queue::new("a".repeat(64), None, None, None).is_ok());
}

#[test]
fn queue_settings_take_defaults_and_report_the_first_invalid_setting() {
    let queue = Queue::new("jobs".to_owned(), None, None, None).expect("defaults are valid");
    assert_eq!(queue.default_message_ttl_seconds(), DEFAULT_MESSAGE_TTL_SECONDS);
    assert_eq!(queue.column_values(), (30, 5, 604_800));

    let details = queue.details();
    assert_eq!(details.id(), queue.id());
    assert_eq!(details.name(), "jobs");
    assert_eq!(details.default_message_ttl_seconds(), 604_800);

    assert!(matches!(
        Queue::new("jobs".to_owned(), Some(0), Some(0), Some(0)),
        Err(QueueValidationError::InvalidSettings(QueueSettingsError::InvalidVisibilityTimeout))
    ));
    assert!(matches!(
        Queue::new("jobs".to_owned(), None, Some(101), Some(0)),
        Err(QueueValidationError::InvalidSettings(QueueSettingsError::InvalidMaxDeliveryAttempts))
    ));
    assert!(matches!(
        Queue::new("jobs".to_owned(), None, None, Some(0)),
        Err(QueueValidationError::InvalidSettings(QueueSettingsError::InvalidDefaultMessageTtl))
    ));
    assert!(matches!(
        Queue::new("jobs".to_owned(), None, None, Some(MAX_MESSAGE_TTL_SECONDS + 1)),
        Err(QueueValidationError::InvalidSettings(QueueSettingsError::InvalidDefaultMessageTtl))
    ));
    assert!(matches!(
        Queue::new("Bad".to_owned(), Some(0), None, None),
        Err(QueueValidationError::InvalidName(QueueNameError::InvalidFormat))
    ));
}

#[test]
fn message_validation_checks_priority_then_ttl() {
    assert_eq!(
        Message::new("p".to_owned(), "URGENT".to_owned(), Some(0)).unwrap_err(),
        MessageValidationError::InvalidPriority
    );
    assert_eq!(
        Message::new("p".to_owned(), "high".to_owned(), None).unwrap_err(),
        MessageValidationError::InvalidPriority
    );
    assert_eq!(
        Message::new("p".to_owned(), "LOW".to_owned(), Some(0)).unwrap_err(),
        MessageValidationError::InvalidTtl
    );
    assert_eq!(
        Message::new("p".to_owned(), "LOW".to_owned(), Some(2_592_001)).unwrap_err(),
        MessageValidationError::InvalidTtl
    );
    let message = Message::new("p".to_owned(), "LOW".to_owned(), Some(2_592_000)).unwrap();
    assert_eq!(message.ttl_seconds(), Some(2_592_000));
    assert_eq!(message.payload(), "p");
    assert_eq!(MessagePriority::from_rank(0), None);
    assert_eq!(MessagePriority::from_rank(4), None);
    assert_eq!(MessagePriority::parse("MEDIUM"), Ok(MessagePriority::Medium));
}

#[test]
fn configuration_updates_validate_only_the_given_settings() {
    let update = QueueConfigurationUpdate::new(None, Some(10), None).expect("valid change");
    assert_eq!(update.visibility_timeout_seconds(), None);
    assert_eq!(update.max_delivery_attempts(), Some(10));
    assert_eq!(update.default_message_ttl_seconds(), None);
    assert_eq!(
        QueueConfigurationUpdate::new(Some(21_601), None, None).unwrap_err(),
        QueueSettingsError::InvalidVisibilityTimeout
    );
    assert_eq!(
        QueueConfigurationUpdate::new(None, None, Some(0)).unwrap_err(),
        QueueSettingsError::InvalidDefaultMessageTtl
    );
}
