use std::cell::RefCell;

use retsu::application::{
    complete_acknowledge, complete_create_queue, complete_dequeue, complete_enqueue,
    complete_process_expired, complete_process_timed_out, complete_purge_dead_letters,
    complete_update_queue, dead_letter_retention_seconds, effective_ttl_seconds, plan_acknowledge,
    plan_enqueue, AcknowledgeMessageCommand, AcknowledgeMessageError, AcknowledgeMessageOutcome,
    CreateQueueCommand, CreateQueueError, CreateQueueOutcome, DequeueMessageCommand,
    DequeueMessageError, DequeueMessageOutcome, EnqueueMessageCommand, EnqueueMessageError,
    EnqueueMessageOutcome, ProcessExpiredMessagesError, PurgeDeadLetterMessagesError,
    UpdateQueueCommand, UpdateQueueError,
};
use retsu::message::{Message, MessagePriority, MessageValidationError};
use retsu::queue::{Queue, QueueDetails, QueueSettingsError};
use retsu::summaries::{
    DeadLetterMessagesPurgeSummary, ExpiredMessagesCleanupSummary, QueueDeadLetterMessagesPurgeSummary,
    QueueExpiredMessagesCleanupSummary, QueueTimeoutProcessingSummary, TimeoutProcessingSummary,
};
use uuid::{Uuid, Version};

/// A repository stand-in that records what it was handed.
struct FakeQueueRepository {
    create_outcome: CreateQueueOutcome,
    created: RefCell<Vec<(u128, String)>>,
}

impl FakeQueueRepository {
    fn new(create_outcome: CreateQueueOutcome) -> Self {
        Self { create_outcome, created: RefCell::new(Vec::new()) }
    }

    fn create_queue(&self, queue: &Queue) -> Result<CreateQueueOutcome, String> {
        self.created.borrow_mut().push((queue.id(), queue.name().to_owned()));
        Ok(self.create_outcome)
    }

    fn calls(&self) -> usize {
        self.created.borrow().len()
    }
}

fn create(repository: &FakeQueueRepository, command: CreateQueueCommand) -> Result<QueueDetails, CreateQueueError<String>> {
    let queue = command.into_queue::<String>()?;
    let outcome = repository.create_queue(&queue);
    complete_create_queue(&queue, outcome)
}

#[test]
fn persists_and_returns_the_effective_queue() {
    let repository = FakeQueueRepository::new(CreateQueueOutcome::Created);
    let command = CreateQueueCommand::new("email-delivery".to_owned(), Some(45), Some(7), Some(300));

    let created = create(&repository, command).expect("valid queue should be created");

    assert_eq!(repository.calls(), 1);
    assert_eq!(created.name(), "email-delivery");
    assert_eq!(created.visibility_timeout_seconds(), 45);
    assert_eq!(created.max_delivery_attempts(), 7);
    assert_eq!(created.default_message_ttl_seconds(), 300);

    let persisted = repository.created.borrow();
    let (persisted_id, persisted_name) = persisted.first().expect("queue should be sent to the repository");
    assert_eq!(*persisted_id, created.id());
    assert_eq!(persisted_name, created.name());
}

#[test]
fn rejects_invalid_commands_without_calling_the_repository() {
    let repository = FakeQueueRepository::new(CreateQueueOutcome::Created);
    let command = CreateQueueCommand::new("Invalid Name".to_owned(), None, None, None);

    let result = create(&repository, command);

    assert!(matches!(result, Err(CreateQueueError::InvalidName(_))));
    assert_eq!(repository.calls(), 0);
}

#[test]
fn maps_repository_conflicts_to_queue_already_exists() {
    let repository = FakeQueueRepository::new(CreateQueueOutcome::AlreadyExists);
    let command = CreateQueueCommand::new("email-delivery".to_owned(), None, None, None);

    let result = create(&repository, command);

    assert!(matches!(result, Err(CreateQueueError::AlreadyExists)));
    assert_eq!(repository.calls(), 1);
}

#[test]
fn create_queue_reports_invalid_settings_and_persistence_failures() {
    let command = CreateQueueCommand::new("jobs".to_owned(), None, None, Some(0));
    assert!(matches!(
        command.into_queue::<String>(),
        Err(CreateQueueError::InvalidSettings(QueueSettingsError::InvalidDefaultMessageTtl))
    ));

    let queue = Queue::new("jobs".to_owned(), None, None, None).unwrap();
    let failed = complete_create_queue(&queue, Err("connection reset".to_owned()));
    assert!(matches!(failed, Err(CreateQueueError::Persistence(e)) if e == "connection reset"));
}

struct FakeMessageRepository {
    enqueue_outcome: EnqueueMessageOutcome,
    enqueued: RefCell<Option<(u128, Message, u32)>>,
    enqueue_calls: RefCell<usize>,
}

impl FakeMessageRepository {
    fn new(enqueue_outcome: EnqueueMessageOutcome) -> Self {
        Self { enqueue_outcome, enqueued: RefCell::new(None), enqueue_calls: RefCell::new(0) }
    }

    fn enqueue_message(&self, queue_id: u128, message: &Message, ttl: u32) -> Result<EnqueueMessageOutcome, String> {
        *self.enqueue_calls.borrow_mut() += 1;
        *self.enqueued.borrow_mut() = Some((queue_id, message.clone(), ttl));
        Ok(self.enqueue_outcome)
    }
}

struct FakeQueueLookup {
    details: Option<QueueDetails>,
    calls: RefCell<usize>,
}

impl FakeQueueLookup {
    fn existing(queue_id: u128) -> Self {
        Self {
            details: Some(QueueDetails::new(queue_id, "email-delivery".to_owned(), 30, 5, 604_800)),
            calls: RefCell::new(0),
        }
    }

    fn missing() -> Self {
        Self { details: None, calls: RefCell::new(0) }
    }

    fn queue_details(&self, _queue_id: u128) -> Result<Option<QueueDetails>, String> {
        *self.calls.borrow_mut() += 1;
        Ok(self.details.as_ref().map(QueueDetails::duplicate))
    }
}

fn enqueue(
    queues: &FakeQueueLookup,
    repository: &FakeMessageRepository,
    command: EnqueueMessageCommand,
) -> Result<retsu::application::EnqueuedMessage, EnqueueMessageError<String>> {
    let (queue_id, message) = command.into_message::<String>()?;
    let (queue, ttl) = plan_enqueue(&message, queues.queue_details(queue_id))?;
    let outcome = repository.enqueue_message(queue_id, &message, ttl);
    complete_enqueue(&message, &queue, outcome)
}

#[test]
fn persists_and_returns_the_effective_message() {
    let queue_id = Uuid::now_v7().as_u128();
    let queues = FakeQueueLookup::existing(queue_id);
    let repository = FakeMessageRepository::new(EnqueueMessageOutcome::Enqueued);
    let command = EnqueueMessageCommand::new(queue_id, r#"{"job":42}"#.to_owned(), "HIGH".to_owned(), Some(60));

    let enqueued = enqueue(&queues, &repository, command).expect("valid message should be enqueued");

    assert_eq!(*repository.enqueue_calls.borrow(), 1);
    assert_eq!(enqueued.queue_name(), "email-delivery");
    assert_eq!(enqueued.priority(), "HIGH");

    let persisted = repository.enqueued.borrow();
    let (persisted_queue_id, message, ttl) = persisted.as_ref().expect("message should be sent to the repository");

    assert_eq!(*persisted_queue_id, queue_id);
    assert_eq!(message.id(), enqueued.id());
    assert_eq!(message.payload(), r#"{"job":42}"#);
    assert_eq!(message.priority().as_str(), enqueued.priority());
    assert_eq!(message.ttl_seconds(), Some(60));
    assert_eq!(*ttl, 60);
}

#[test]
fn rejects_invalid_messages_without_calling_the_repository() {
    let repository = FakeMessageRepository::new(EnqueueMessageOutcome::Enqueued);
    let queues = FakeQueueLookup::existing(Uuid::now_v7().as_u128());
    let queue_id = Uuid::now_v7().as_u128();

    let invalid_priority = enqueue(
        &queues,
        &repository,
        EnqueueMessageCommand::new(queue_id, "payload".to_owned(), "URGENT".to_owned(), None),
    );
    assert!(matches!(
        invalid_priority,
        Err(EnqueueMessageError::InvalidMessage(MessageValidationError::InvalidPriority))
    ));

    let invalid_ttl = enqueue(
        &queues,
        &repository,
        EnqueueMessageCommand::new(queue_id, "payload".to_owned(), "HIGH".to_owned(), Some(0)),
    );
    assert!(matches!(invalid_ttl, Err(EnqueueMessageError::InvalidMessage(MessageValidationError::InvalidTtl))));

    assert_eq!(*repository.enqueue_calls.borrow(), 0);
    assert_eq!(*queues.calls.borrow(), 0);
}

#[test]
fn reports_when_the_target_queue_does_not_exist() {
    let queues = FakeQueueLookup::missing();
    let repository = FakeMessageRepository::new(EnqueueMessageOutcome::Enqueued);
    let command = EnqueueMessageCommand::new(Uuid::now_v7().as_u128(), "payload".to_owned(), "MEDIUM".to_owned(), None);

    let result = enqueue(&queues, &repository, command);

    assert!(matches!(result, Err(EnqueueMessageError::QueueNotFound)));
    assert_eq!(*repository.enqueue_calls.borrow(), 0);
    assert_eq!(*queues.calls.borrow(), 1);
}

#[test]
fn preserves_a_queue_not_found_outcome_from_the_message_write() {
    let queue_id = Uuid::now_v7().as_u128();
    let queues = FakeQueueLookup::existing(queue_id);
    let repository = FakeMessageRepository::new(EnqueueMessageOutcome::QueueNotFound);
    let command = EnqueueMessageCommand::new(queue_id, "payload".to_owned(), "MEDIUM".to_owned(), None);

    let result = enqueue(&queues, &repository, command);

    assert!(matches!(result, Err(EnqueueMessageError::QueueNotFound)));
    assert_eq!(*repository.enqueue_calls.borrow(), 1);
}

#[test]
fn enqueue_uses_the_queue_default_ttl_when_the_message_sets_none() {
    let queue_id = Uuid::now_v7().as_u128();
    let queues = FakeQueueLookup::existing(queue_id);
    let repository = FakeMessageRepository::new(EnqueueMessageOutcome::Enqueued);
    let command = EnqueueMessageCommand::new(queue_id, "payload".to_owned(), "LOW".to_owned(), None);

    enqueue(&queues, &repository, command).expect("message should be enqueued");

    let persisted = repository.enqueued.borrow();
    assert_eq!(persisted.as_ref().unwrap().2, 604_800);

    let message = Message::new("p".to_owned(), "LOW".to_owned(), Some(9)).unwrap();
    let details = QueueDetails::new(1, "q".to_owned(), 30, 5, 77);
    assert_eq!(effective_ttl_seconds(&message, &details), 9);
    let failed = plan_enqueue(&message, Err::<Option<QueueDetails>, String>("down".to_owned()));
    assert!(matches!(failed, Err(EnqueueMessageError::Persistence(e)) if e == "down"));
}

fn dequeue_with(outcome: Result<DequeueMessageOutcome, String>) -> Result<Option<retsu::application::DequeuedMessage>, DequeueMessageError<String>> {
    complete_dequeue(outcome)
}

#[test]
fn returns_the_repository_lease_with_its_generated_receipt_handle() {
    let message_id = Uuid::now_v7().as_u128();
    let (queue_id, receipt_handle) = DequeueMessageCommand::new(42).into_lease_request();

    assert_eq!(queue_id, 42);
    assert_eq!(Uuid::from_u128(receipt_handle).get_version(), Some(Version::Random));

    let dequeued = dequeue_with(Ok(DequeueMessageOutcome::Dequeued {
        id: message_id,
        payload: r#"{"job":42}"#.to_owned(),
        priority: MessagePriority::High,
        receipt_handle,
        delivery_attempts: 2,
    }))
    .expect("dequeue should succeed")
    .expect("repository returned a message");

    assert_eq!(dequeued.id(), message_id);
    assert_eq!(dequeued.payload(), r#"{"job":42}"#);
    assert_eq!(dequeued.priority(), "HIGH");
    assert_eq!(dequeued.receipt_handle(), receipt_handle);
    assert_eq!(dequeued.delivery_attempts(), 2);
}

#[test]
fn distinguishes_an_empty_queue_from_a_missing_queue() {
    let empty = dequeue_with(Ok(DequeueMessageOutcome::Empty));
    assert!(matches!(empty, Ok(None)));

    let missing = dequeue_with(Ok(DequeueMessageOutcome::QueueNotFound));
    assert!(matches!(missing, Err(DequeueMessageError::QueueNotFound)));

    let failed = dequeue_with(Err("timeout".to_owned()));
    assert!(matches!(failed, Err(DequeueMessageError::Persistence(_))));
}

fn acknowledge_with(outcome: AcknowledgeMessageOutcome) -> Result<(), AcknowledgeMessageError<String>> {
    let queue = plan_acknowledge(Ok::<Option<QueueDetails>, String>(Some(QueueDetails::new(
        7,
        "email-delivery".to_owned(),
        30,
        5,
        604_800,
    ))))?;
    complete_acknowledge(&queue, Ok(outcome)).map(|_| ())
}

#[test]
fn acknowledges_the_exact_message_delivery() {
    let message_id = Uuid::now_v7().as_u128();
    let receipt_handle = Uuid::new_v4().as_u128();
    let command = AcknowledgeMessageCommand::new(7, message_id, receipt_handle);
    assert_eq!(command.queue_id(), 7);

    let (queue_id, actual_message_id, actual_receipt_handle) = command.into_parts();
    assert_eq!(queue_id, 7);
    assert_eq!(actual_message_id, message_id);
    assert_eq!(actual_receipt_handle, receipt_handle);

    let queue = QueueDetails::new(7, "email-delivery".to_owned(), 30, 5, 604_800);
    let acknowledged = complete_acknowledge::<String>(&queue, Ok(AcknowledgeMessageOutcome::Acknowledged))
        .expect("current message delivery should be acknowledged");
    assert_eq!(acknowledged.queue_name(), "email-delivery");
}

#[test]
fn mod_preserves_distinct_acknowledgement_failures() {
    assert!(matches!(acknowledge_with(AcknowledgeMessageOutcome::QueueNotFound), Err(AcknowledgeMessageError::QueueNotFound)));
    assert!(matches!(acknowledge_with(AcknowledgeMessageOutcome::MessageNotFound), Err(AcknowledgeMessageError::MessageNotFound)));
    assert!(matches!(
        acknowledge_with(AcknowledgeMessageOutcome::ReceiptHandleInvalid),
        Err(AcknowledgeMessageError::ReceiptHandleInvalid)
    ));
}

#[test]
fn application_lifecycle_preserves_distinct_acknowledgement_failures() {
    assert!(matches!(acknowledge_with(AcknowledgeMessageOutcome::QueueNotFound), Err(AcknowledgeMessageError::QueueNotFound)));
    assert!(matches!(acknowledge_with(AcknowledgeMessageOutcome::MessageNotFound), Err(AcknowledgeMessageError::MessageNotFound)));
    assert!(matches!(
        acknowledge_with(AcknowledgeMessageOutcome::ReceiptHandleInvalid),
        Err(AcknowledgeMessageError::ReceiptHandleInvalid)
    ));
    assert!(matches!(
        plan_acknowledge(Ok::<Option<QueueDetails>, String>(None)),
        Err(AcknowledgeMessageError::QueueNotFound)
    ));
}

fn timeout_summary() -> TimeoutProcessingSummary {
    TimeoutProcessingSummary::new(vec![QueueTimeoutProcessingSummary::new("email-delivery".to_owned(), 37, 5)])
}

fn check_timeout_summary(summary: &TimeoutProcessingSummary) {
    assert_eq!(summary.processed(), 42);
    assert_eq!(summary.requeued(), 37);
    assert_eq!(summary.dead_lettered(), 5);

    let queue_summary = summary.per_queue().first().expect("summary should contain the affected queue");

    assert_eq!(queue_summary.queue_name(), "email-delivery");
    assert_eq!(queue_summary.requeued(), 37);
    assert_eq!(queue_summary.dead_lettered(), 5);
}

#[test]
fn mod_forwards_timeout_processing_and_preserves_the_summary() {
    let summary = complete_process_timed_out::<String>(Ok(timeout_summary()))
        .expect("timed-out messages should be processed");
    check_timeout_summary(&summary);
}

#[test]
fn application_lifecycle_forwards_timeout_processing_and_preserves_the_summary() {
    let summary = complete_process_timed_out::<String>(Ok(timeout_summary()))
        .expect("timed-out messages should be processed");
    check_timeout_summary(&summary);
}

#[test]
fn forwards_expiration_processing_and_preserves_the_summary() {
    let summary = complete_process_expired::<String>(Ok(ExpiredMessagesCleanupSummary::new(vec![
        QueueExpiredMessagesCleanupSummary::new("email-delivery".to_owned(), 31, 11),
    ])))
    .expect("expired messages should be processed");

    assert_eq!(summary.processed(), 42);
    assert_eq!(summary.never_delivered(), 31);
    assert_eq!(summary.previously_delivered(), 11);

    let queue_summary = summary.per_queue().first().expect("summary should contain the affected queue");

    assert_eq!(queue_summary.queue_name(), "email-delivery");
    assert_eq!(queue_summary.never_delivered(), 31);
    assert_eq!(queue_summary.previously_delivered(), 11);
    assert_eq!(queue_summary.processed(), 42);

    let failed = complete_process_expired(Err::<ExpiredMessagesCleanupSummary, String>("down".to_owned()));
    assert!(matches!(failed, Err(ProcessExpiredMessagesError::Persistence(_))));
}

#[test]
fn summaries_total_over_every_queue() {
    let summary = ExpiredMessagesCleanupSummary::new(vec![
        QueueExpiredMessagesCleanupSummary::new("a".to_owned(), 1, 2),
        QueueExpiredMessagesCleanupSummary::new("b".to_owned(), 10, 20),
    ]);
    assert_eq!(summary.processed(), 33);
    assert_eq!(summary.never_delivered(), 11);
    assert_eq!(summary.previously_delivered(), 22);

    let timeouts = TimeoutProcessingSummary::new(vec![
        QueueTimeoutProcessingSummary::new("a".to_owned(), 1, 0),
        QueueTimeoutProcessingSummary::new("b".to_owned(), 4, 5),
    ]);
    assert_eq!(timeouts.processed(), 10);
    assert_eq!(timeouts.requeued(), 5);
    assert_eq!(timeouts.dead_lettered(), 5);

    let purges = DeadLetterMessagesPurgeSummary::new(vec![
        QueueDeadLetterMessagesPurgeSummary::new("a".to_owned(), 3),
        QueueDeadLetterMessagesPurgeSummary::new("b".to_owned(), 4),
    ]);
    assert_eq!(purges.purged(), 7);
    assert_eq!(purges.per_queue()[1].queue_name(), "b");

    let empty = TimeoutProcessingSummary::new(Vec::new());
    assert_eq!(empty.processed(), 0);
}

#[test]
fn dead_letter_retention_must_fit_a_signed_count() {
    assert_eq!(dead_letter_retention_seconds::<String>(86_400).ok(), Some(86_400));
    assert_eq!(dead_letter_retention_seconds::<String>(i64::MAX as u64).ok(), Some(i64::MAX));
    assert!(matches!(
        dead_letter_retention_seconds::<String>(i64::MAX as u64 + 1),
        Err(PurgeDeadLetterMessagesError::RetentionOverflow)
    ));
    let purged = complete_purge_dead_letters::<String>(Ok(DeadLetterMessagesPurgeSummary::new(Vec::new()))).unwrap();
    assert_eq!(purged.purged(), 0);
}

#[test]
fn updates_refuse_empty_and_invalid_changes_and_report_missing_queues() {
    assert!(matches!(
        UpdateQueueCommand::new(1, None, None, None).into_update::<String>(),
        Err(UpdateQueueError::NoConfigurationChanges)
    ));
    assert!(matches!(
        UpdateQueueCommand::new(1, None, Some(0), None).into_update::<String>(),
        Err(UpdateQueueError::InvalidSettings(QueueSettingsError::InvalidMaxDeliveryAttempts))
    ));
    let (queue_id, update) = UpdateQueueCommand::new(9, Some(90), None, Some(600))
        .into_update::<String>()
        .expect("valid change");
    assert_eq!(queue_id, 9);
    assert_eq!(update.visibility_timeout_seconds(), Some(90));
    assert_eq!(update.default_message_ttl_seconds(), Some(600));

    assert!(matches!(complete_update_queue::<String>(Ok(None)), Err(UpdateQueueError::QueueNotFound)));
    let details = complete_update_queue::<String>(Ok(Some(QueueDetails::new(9, "q".to_owned(), 90, 5, 600)))).unwrap();
    assert_eq!(details.visibility_timeout_seconds(), 90);
}
