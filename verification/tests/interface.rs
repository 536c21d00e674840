use retsu::api::{
    map_acknowledge_message_error, map_create_queue_error, map_dequeue_message_error, map_enqueue_message_error,
    map_update_queue_error, ApiProblem,
};
use retsu::application::{
    AcknowledgeMessageError, CreateQueueError, DequeueMessageError, EnqueueMessageError, UpdateQueueError,
};
use retsu::catalog::{display_names, module_catalog, resolve_worker, worker_module_names, worker_names, WorkerKind, WorkerResolutionError};
use retsu::message::MessageValidationError;
use retsu::queue::{QueueNameError, QueueSettingsError};

#[test]
fn maps_queue_failures_to_stable_http_error_codes() {
    let cases: Vec<(ApiProblem, u16, &str)> = vec![
        (
            map_create_queue_error(CreateQueueError::<String>::InvalidName(QueueNameError::InvalidFormat)),
            400,
            "invalid_queue_name",
        ),
        (
            map_create_queue_error(CreateQueueError::<String>::InvalidSettings(QueueSettingsError::InvalidVisibilityTimeout)),
            400,
            "invalid_visibility_timeout",
        ),
        (
            map_create_queue_error(CreateQueueError::<String>::InvalidSettings(QueueSettingsError::InvalidMaxDeliveryAttempts)),
            400,
            "invalid_max_delivery_attempts",
        ),
        (map_create_queue_error(CreateQueueError::<String>::AlreadyExists), 409, "queue_already_exists"),
        (map_update_queue_error(UpdateQueueError::<String>::NoConfigurationChanges), 400, "empty_queue_update"),
        (
            map_update_queue_error(UpdateQueueError::<String>::InvalidSettings(QueueSettingsError::InvalidDefaultMessageTtl)),
            400,
            "invalid_default_message_ttl",
        ),
        (map_update_queue_error(UpdateQueueError::<String>::QueueNotFound), 404, "queue_not_found"),
        (
            map_enqueue_message_error(EnqueueMessageError::<String>::InvalidMessage(MessageValidationError::InvalidPriority)),
            400,
            "invalid_priority",
        ),
        (
            map_enqueue_message_error(EnqueueMessageError::<String>::InvalidMessage(MessageValidationError::InvalidTtl)),
            400,
            "invalid_ttl",
        ),
        (map_enqueue_message_error(EnqueueMessageError::<String>::QueueNotFound), 404, "queue_not_found"),
        (map_dequeue_message_error(DequeueMessageError::<String>::QueueNotFound), 404, "queue_not_found"),
        (map_acknowledge_message_error(AcknowledgeMessageError::<String>::QueueNotFound), 404, "queue_not_found"),
    ];

    for (problem, expected_status, expected_code) in cases {
        assert_eq!(problem.status(), expected_status);
        assert_eq!(problem.code(), expected_code);
    }
}

#[test]
fn problem_details_carry_the_error_descriptions() {
    let problem = map_enqueue_message_error(EnqueueMessageError::<String>::InvalidMessage(MessageValidationError::InvalidTtl));
    assert_eq!(problem.detail(), "ttl_seconds must be between 1 and 2592000 when provided");

    let conflict = map_acknowledge_message_error(AcknowledgeMessageError::<String>::ReceiptHandleInvalid);
    assert_eq!(conflict.status(), 409);
    assert_eq!(conflict.code(), "invalid_receipt_handle");

    let missing = map_acknowledge_message_error(AcknowledgeMessageError::<String>::MessageNotFound);
    assert_eq!(missing.status(), 404);
    assert_eq!(missing.code(), "message_not_found");

    let internal = map_create_queue_error(CreateQueueError::Persistence("db down".to_owned()));
    assert_eq!(internal.status(), 500);
    assert_eq!(internal.code(), "internal_error");
    assert!(!internal.detail().contains("db down"));

    let name = map_create_queue_error(CreateQueueError::<String>::InvalidName(QueueNameError::InvalidLength));
    assert_eq!(name.detail(), "queue name must contain between 1 and 64 ASCII characters");
}

#[test]
fn lists_the_queue_module_and_its_workers() {
    let catalog = module_catalog();
    assert_eq!(catalog.len(), 1);
    assert_eq!(catalog[0].name(), "queue");
    assert!(catalog[0].has_api());

    assert_eq!(worker_module_names(), vec!["queue"]);
    assert_eq!(
        worker_names("queue").expect("queue contributes workers"),
        vec![
            "visibility-timeout-processor",
            "expired-message-cleaner",
            "dead-letter-message-cleaner",
            "state-metrics-collector",
        ]
    );
}

#[test]
fn resolves_workers_and_explains_unknown_selections() {
    let resolved = resolve_worker("queue", "expired-message-cleaner").expect("known worker");
    assert_eq!(resolved.module_name(), "queue");
    assert_eq!(resolved.worker_name(), "expired-message-cleaner");
    assert_eq!(resolved.kind(), WorkerKind::ExpiredMessageCleaner);

    let unknown_module = resolve_worker("billing", "anything").unwrap_err();
    assert!(matches!(&unknown_module, WorkerResolutionError::UnknownModule { module, available }
        if module == "billing" && available == "queue"));
    assert_eq!(unknown_module.message(), "unknown worker module `billing`; available modules: queue");

    let unknown_worker = resolve_worker("queue", "reaper").unwrap_err();
    assert_eq!(
        unknown_worker.message(),
        "unknown worker `reaper` in module `queue`; available workers: visibility-timeout-processor, \
         expired-message-cleaner, dead-letter-message-cleaner, state-metrics-collector"
    );

    assert!(matches!(worker_names("billing"), Err(WorkerResolutionError::UnknownModule { .. })));
}

#[test]
fn displays_names_or_none() {
    assert_eq!(display_names(&[]), "<none>");
    assert_eq!(display_names(&["a"]), "a");
    assert_eq!(display_names(&["a", "b", "c"]), "a, b, c");
}
