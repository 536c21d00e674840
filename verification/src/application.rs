//! The queue use cases, written as decisions around the repository: each
//! use case validates its command, names the repository call to make, and
//! turns what the repository reported into the use case's result. The
//! asynchronous host makes the calls in between.

use vstd::prelude::*;

use crate::ids::{is_rfc_uuid_of_version, new_random_id};
use crate::message::{
    message_validation_error, priority_label, Message, MessagePriority, MessageValidationError,
};
use crate::queue::{
    configuration_update_error, queue_validation_error, settings_outcome, Queue,
    QueueConfigurationUpdate, QueueDetails, QueueNameError, QueueSettingsError,
    QueueValidationError,
};
use crate::summaries::{DeadLetterMessagesPurgeSummary, ExpiredMessagesCleanupSummary, TimeoutProcessingSummary};

verus! {

// ---------------------------------------------------------------- outcomes

/// What the repository reports after trying to store a new queue.
#[derive(Clone, Copy, Debug, PartialEq, Eq, Structural)]
pub enum CreateQueueOutcome {
    Created,
    AlreadyExists,
}

/// What the repository reports after trying to store a message.
#[derive(Clone, Copy, Debug, PartialEq, Eq, Structural)]
pub enum EnqueueMessageOutcome {
    Enqueued,
    QueueNotFound,
}

/// What the repository reports after trying to lease the next message.
#[derive(Debug)]
pub enum DequeueMessageOutcome {
    Dequeued {
        id: u128,
        payload: String,
        priority: MessagePriority,
        receipt_handle: u128,
        delivery_attempts: u16,
    },
    Empty,
    QueueNotFound,
}

/// What the repository reports after trying to acknowledge a delivery.
#[derive(Clone, Copy, Debug, PartialEq, Eq, Structural)]
pub enum AcknowledgeMessageOutcome {
    Acknowledged,
    QueueNotFound,
    MessageNotFound,
    ReceiptHandleInvalid,
}

// ------------------------------------------------------------ create queue

#[derive(Debug)]
pub enum CreateQueueError<E> {
    InvalidName(QueueNameError),
    InvalidSettings(QueueSettingsError),
    AlreadyExists,
    Persistence(E),
}

impl<E> CreateQueueError<E> {
    /// The human-readable description of the error.
    pub fn message(&self) -> (r: &'static str)
        ensures
            r@ == (match *self {
                CreateQueueError::InvalidName(QueueNameError::InvalidLength) => "queue name must contain between 1 and 64 ASCII characters"@,
                CreateQueueError::InvalidName(QueueNameError::InvalidFormat) => "queue name must contain only ASCII lowercase letters, digits, dots, underscores, or hyphens, and must start and end with an ASCII lowercase letter or digit"@,
                CreateQueueError::InvalidSettings(QueueSettingsError::InvalidVisibilityTimeout) => "visibility timeout must be between 1 and 21600 seconds"@,
                CreateQueueError::InvalidSettings(QueueSettingsError::InvalidMaxDeliveryAttempts) => "max delivery attempts must be between 1 and 100"@,
                CreateQueueError::InvalidSettings(QueueSettingsError::InvalidDefaultMessageTtl) => "default message TTL must be between 1 and 2592000 seconds"@,
                CreateQueueError::AlreadyExists => "a queue with this name already exists"@,
                CreateQueueError::Persistence(_) => "failed to persist the queue"@,
            }),
    {
        match self {
            CreateQueueError::InvalidName(e) => e.message(),
            CreateQueueError::InvalidSettings(e) => e.message(),
            CreateQueueError::AlreadyExists => "a queue with this name already exists",
            CreateQueueError::Persistence(_) => "failed to persist the queue",
        }
    }
}

impl<E> CreateQueueError<E> {
    /// The error a refused queue definition is reported as.
    pub fn from_validation(error: QueueValidationError) -> (r: Self)
        ensures
            r == (match error {
                QueueValidationError::InvalidName(e) => CreateQueueError::<E>::InvalidName(e),
                QueueValidationError::InvalidSettings(e) => CreateQueueError::<E>::InvalidSettings(e),
            }),
    {
        match error {
            QueueValidationError::InvalidName(e) => CreateQueueError::InvalidName(e),
            QueueValidationError::InvalidSettings(e) => CreateQueueError::InvalidSettings(e),
        }
    }
}

#[derive(Debug)]
pub struct CreateQueueCommand {
    name: String,
    visibility_timeout_seconds: Option<u32>,
    max_delivery_attempts: Option<u16>,
    default_message_ttl_seconds: Option<u32>,
}

impl CreateQueueCommand {
    pub closed spec fn spec_name(&self) -> Seq<char> {
        self.name@
    }

    pub closed spec fn spec_settings(&self) -> (Option<u32>, Option<u16>, Option<u32>) {
        (self.visibility_timeout_seconds, self.max_delivery_attempts, self.default_message_ttl_seconds)
    }

    pub fn new(
        name: String,
        visibility_timeout_seconds: Option<u32>,
        max_delivery_attempts: Option<u16>,
        default_message_ttl_seconds: Option<u32>,
    ) -> (r: Self)
        ensures
            r.spec_name() == name@,
            r.spec_settings() == (visibility_timeout_seconds, max_delivery_attempts, default_message_ttl_seconds),
    {
        CreateQueueCommand { name, visibility_timeout_seconds, max_delivery_attempts, default_message_ttl_seconds }
    }

    /// The first step of creating a queue: the validated queue to store, or
    /// the validation error (then nothing is stored).
    pub fn into_queue<E>(self) -> (r: Result<Queue, CreateQueueError<E>>)
        ensures
            match queue_validation_error(self.spec_name(), self.spec_settings().0, self.spec_settings().1, self.spec_settings().2) {
                Some(QueueValidationError::InvalidName(e)) => r == Err::<Queue, CreateQueueError<E>>(CreateQueueError::InvalidName(e)),
                Some(QueueValidationError::InvalidSettings(e)) => r == Err::<Queue, CreateQueueError<E>>(CreateQueueError::InvalidSettings(e)),
                None => r matches Ok(q) && {
                    let values = settings_outcome(self.spec_settings().0, self.spec_settings().1, self.spec_settings().2)->Ok_0;
                    &&& q@.name == self.spec_name()
                    &&& q@.visibility_timeout_seconds == values.0
                    &&& q@.max_delivery_attempts == values.1
                    &&& q@.default_message_ttl_seconds == values.2
                    &&& is_rfc_uuid_of_version(q@.id, 7)
                },
            },
    {
        match Queue::new(self.name, self.visibility_timeout_seconds, self.max_delivery_attempts, self.default_message_ttl_seconds) {
            Ok(q) => Ok(q),
            Err(e) => Err(CreateQueueError::from_validation(e)),
        }
    }
}

/// The last step of creating a queue: a stored queue is returned as its
/// details; a name that is already taken, or a failed write, is an error.
pub fn complete_create_queue<E>(queue: &Queue, outcome: Result<CreateQueueOutcome, E>) -> (r: Result<QueueDetails, CreateQueueError<E>>)
    ensures
        match outcome {
            Ok(CreateQueueOutcome::Created) => r matches Ok(d) && d@ == queue@,
            Ok(CreateQueueOutcome::AlreadyExists) => r == Err::<QueueDetails, CreateQueueError<E>>(CreateQueueError::AlreadyExists),
            Err(e) => r == Err::<QueueDetails, CreateQueueError<E>>(CreateQueueError::Persistence(e)),
        },
{
    match outcome {
        Ok(CreateQueueOutcome::Created) => Ok(queue.details()),
        Ok(CreateQueueOutcome::AlreadyExists) => Err(CreateQueueError::AlreadyExists),
        Err(e) => Err(CreateQueueError::Persistence(e)),
    }
}

// ------------------------------------------------------------ update queue

#[derive(Debug)]
pub enum UpdateQueueError<E> {
    NoConfigurationChanges,
    InvalidSettings(QueueSettingsError),
    QueueNotFound,
    Persistence(E),
}

impl<E> UpdateQueueError<E> {
    /// The human-readable description of the error.
    pub fn message(&self) -> (r: &'static str)
        ensures
            r@ == (match *self {
                UpdateQueueError::NoConfigurationChanges => "at least one queue configuration field must be provided"@,
                UpdateQueueError::InvalidSettings(QueueSettingsError::InvalidVisibilityTimeout) => "visibility timeout must be between 1 and 21600 seconds"@,
                UpdateQueueError::InvalidSettings(QueueSettingsError::InvalidMaxDeliveryAttempts) => "max delivery attempts must be between 1 and 100"@,
                UpdateQueueError::InvalidSettings(QueueSettingsError::InvalidDefaultMessageTtl) => "default message TTL must be between 1 and 2592000 seconds"@,
                UpdateQueueError::QueueNotFound => "the requested queue does not exist"@,
                UpdateQueueError::Persistence(_) => "failed to persist the queue configuration"@,
            }),
    {
        match self {
            UpdateQueueError::NoConfigurationChanges => "at least one queue configuration field must be provided",
            UpdateQueueError::InvalidSettings(e) => e.message(),
            UpdateQueueError::QueueNotFound => "the requested queue does not exist",
            UpdateQueueError::Persistence(_) => "failed to persist the queue configuration",
        }
    }
}

#[derive(Debug)]
pub struct UpdateQueueCommand {
    queue_id: u128,
    visibility_timeout_seconds: Option<u32>,
    max_delivery_attempts: Option<u16>,
    default_message_ttl_seconds: Option<u32>,
}

impl UpdateQueueCommand {
    pub closed spec fn spec_queue_id(&self) -> u128 {
        self.queue_id
    }

    pub closed spec fn spec_settings(&self) -> (Option<u32>, Option<u16>, Option<u32>) {
        (self.visibility_timeout_seconds, self.max_delivery_attempts, self.default_message_ttl_seconds)
    }

    pub fn new(
        queue_id: u128,
        visibility_timeout_seconds: Option<u32>,
        max_delivery_attempts: Option<u16>,
        default_message_ttl_seconds: Option<u32>,
    ) -> (r: Self)
        ensures
            r.spec_queue_id() == queue_id,
            r.spec_settings() == (visibility_timeout_seconds, max_delivery_attempts, default_message_ttl_seconds),
    {
        UpdateQueueCommand { queue_id, visibility_timeout_seconds, max_delivery_attempts, default_message_ttl_seconds }
    }

    /// The first step of updating a queue: the queue and the validated change
    /// to apply. A command that changes nothing, or sets a value out of its
    /// range, is refused before the repository is asked.
    pub fn into_update<E>(self) -> (r: Result<(u128, QueueConfigurationUpdate), UpdateQueueError<E>>)
        ensures
            ({
                let (v, m, t) = self.spec_settings();
                if v is None && m is None && t is None {
                    r == Err::<(u128, QueueConfigurationUpdate), UpdateQueueError<E>>(UpdateQueueError::NoConfigurationChanges)
                } else {
                    match configuration_update_error(v, m, t) {
                        Some(e) => r == Err::<(u128, QueueConfigurationUpdate), UpdateQueueError<E>>(UpdateQueueError::InvalidSettings(e)),
                        None => r matches Ok((id, u)) && id == self.spec_queue_id() && u.spec_values() == (v, m, t),
                    }
                }
            }),
    {
        if self.visibility_timeout_seconds.is_none() && self.max_delivery_attempts.is_none()
            && self.default_message_ttl_seconds.is_none() {
            return Err(UpdateQueueError::NoConfigurationChanges);
        }
        match QueueConfigurationUpdate::new(self.visibility_timeout_seconds, self.max_delivery_attempts, self.default_message_ttl_seconds) {
            Ok(u) => Ok((self.queue_id, u)),
            Err(e) => Err(UpdateQueueError::InvalidSettings(e)),
        }
    }
}

/// The last step of updating a queue: the updated details, or that the
/// queue does not exist, or the failed write.
pub fn complete_update_queue<E>(outcome: Result<Option<QueueDetails>, E>) -> (r: Result<QueueDetails, UpdateQueueError<E>>)
    ensures
        match outcome {
            Ok(Some(d)) => r == Ok::<QueueDetails, UpdateQueueError<E>>(d),
            Ok(None) => r == Err::<QueueDetails, UpdateQueueError<E>>(UpdateQueueError::QueueNotFound),
            Err(e) => r == Err::<QueueDetails, UpdateQueueError<E>>(UpdateQueueError::Persistence(e)),
        },
{
    match outcome {
        Ok(Some(d)) => Ok(d),
        Ok(None) => Err(UpdateQueueError::QueueNotFound),
        Err(e) => Err(UpdateQueueError::Persistence(e)),
    }
}

// ---------------------------------------------------------- enqueue message

#[derive(Debug)]
pub enum EnqueueMessageError<E> {
    InvalidMessage(MessageValidationError),
    QueueNotFound,
    Persistence(E),
}

impl<E> EnqueueMessageError<E> {
    /// The human-readable description of the error.
    pub fn message(&self) -> (r: &'static str)
        ensures
            r@ == (match *self {
                EnqueueMessageError::InvalidMessage(MessageValidationError::InvalidPriority) => "priority must be one of HIGH, MEDIUM or LOW"@,
                EnqueueMessageError::InvalidMessage(MessageValidationError::InvalidTtl) => "ttl_seconds must be between 1 and 2592000 when provided"@,
                EnqueueMessageError::QueueNotFound => "the requested queue does not exist"@,
                EnqueueMessageError::Persistence(_) => "failed to persist the message"@,
            }),
    {
        match self {
            EnqueueMessageError::InvalidMessage(e) => e.message(),
            EnqueueMessageError::QueueNotFound => "the requested queue does not exist",
            EnqueueMessageError::Persistence(_) => "failed to persist the message",
        }
    }
}

#[derive(Debug)]
pub struct EnqueueMessageCommand {
    queue_id: u128,
    payload: String,
    priority: String,
    ttl_seconds: Option<u32>,
}

impl EnqueueMessageCommand {
    pub closed spec fn spec_queue_id(&self) -> u128 {
        self.queue_id
    }

    pub closed spec fn spec_payload(&self) -> Seq<char> {
        self.payload@
    }

    pub closed spec fn spec_priority(&self) -> Seq<char> {
        self.priority@
    }

    pub closed spec fn spec_ttl_seconds(&self) -> Option<u32> {
        self.ttl_seconds
    }

    pub fn new(queue_id: u128, payload: String, priority: String, ttl_seconds: Option<u32>) -> (r: Self)
        ensures
            r.spec_queue_id() == queue_id,
            r.spec_payload() == payload@,
            r.spec_priority() == priority@,
            r.spec_ttl_seconds() == ttl_seconds,
    {
        EnqueueMessageCommand { queue_id, payload, priority, ttl_seconds }
    }

    /// The first step of enqueueing: the target queue and the validated
    /// message. An invalid message is refused before the queue is looked up.
    pub fn into_message<E>(self) -> (r: Result<(u128, Message), EnqueueMessageError<E>>)
        ensures
            match message_validation_error(self.spec_priority(), self.spec_ttl_seconds()) {
                Some(e) => r == Err::<(u128, Message), EnqueueMessageError<E>>(EnqueueMessageError::InvalidMessage(e)),
                None => r matches Ok((id, m)) && {
                    &&& id == self.spec_queue_id()
                    &&& m@.payload == self.spec_payload()
                    &&& priority_label(m@.priority) == self.spec_priority()
                    &&& m@.ttl_seconds == self.spec_ttl_seconds()
                    &&& is_rfc_uuid_of_version(m@.id, 7)
                },
            },
    {
        match Message::new(self.payload, self.priority, self.ttl_seconds) {
            Ok(m) => {
                proof {
                    crate::message::lemma_label_round_trip(m@.priority);
                }
                Ok((self.queue_id, m))
            },
            Err(e) => Err(EnqueueMessageError::InvalidMessage(e)),
        }
    }
}

/// The time-to-live a message is stored with: its own, or else the queue's default.
pub open spec fn effective_ttl(message_ttl: Option<u32>, queue_default: u32) -> u32 {
    match message_ttl {
        Some(t) => t,
        None => queue_default,
    }
}

/// The time-to-live a message is stored with in a queue.
pub fn effective_ttl_seconds(message: &Message, queue: &QueueDetails) -> (r: u32)
    ensures
        r == effective_ttl(message@.ttl_seconds, queue@.default_message_ttl_seconds),
        message@.ttl_seconds matches Some(t) ==> r == t,
        message@.ttl_seconds is None ==> r == queue@.default_message_ttl_seconds,
{
    match message.ttl_seconds() {
        Some(t) => t,
        None => queue.default_message_ttl_seconds(),
    }
}

/// A message's own time-to-live is stored as it is, whatever the queue's
/// default, shorter or longer; only a message without one takes the default.
pub proof fn lemma_message_ttl_precedes_queue_default(message_ttl: u32, queue_default: u32)
    ensures
        effective_ttl(Some(message_ttl), queue_default) == message_ttl,
        effective_ttl(None, queue_default) == queue_default,
{
}

/// The second step of enqueueing, after the queue was looked up: the queue
/// and the time-to-live to store the message with, or why it cannot be stored.
pub fn plan_enqueue<E>(message: &Message, lookup: Result<Option<QueueDetails>, E>) -> (r: Result<(QueueDetails, u32), EnqueueMessageError<E>>)
    ensures
        match lookup {
            Ok(Some(q)) => r matches Ok((d, ttl)) && d@ == q@
                && ttl == effective_ttl(message@.ttl_seconds, q@.default_message_ttl_seconds)
                && (message@.ttl_seconds matches Some(t) ==> ttl == t)
                && (message@.ttl_seconds is None ==> ttl == q@.default_message_ttl_seconds),
            Ok(None) => r == Err::<(QueueDetails, u32), EnqueueMessageError<E>>(EnqueueMessageError::QueueNotFound),
            Err(e) => r == Err::<(QueueDetails, u32), EnqueueMessageError<E>>(EnqueueMessageError::Persistence(e)),
        },
{
    match lookup {
        Ok(Some(q)) => {
            let ttl = effective_ttl_seconds(message, &q);
            Ok((q, ttl))
        },
        Ok(None) => Err(EnqueueMessageError::QueueNotFound),
        Err(e) => Err(EnqueueMessageError::Persistence(e)),
    }
}

/// A message that was stored.
#[derive(Debug)]
pub struct EnqueuedMessage {
    id: u128,
    queue_name: String,
    priority: MessagePriority,
}

impl EnqueuedMessage {
    pub closed spec fn spec_id(&self) -> u128 {
        self.id
    }

    pub closed spec fn spec_queue_name(&self) -> Seq<char> {
        self.queue_name@
    }

    pub closed spec fn spec_priority(&self) -> MessagePriority {
        self.priority
    }

    pub fn id(&self) -> (r: u128)
        ensures
            r == self.spec_id(),
    {
        self.id
    }

    pub fn queue_name(&self) -> (r: &str)
        ensures
            r@ == self.spec_queue_name(),
    {
        self.queue_name.as_str()
    }

    pub fn priority(&self) -> (r: &'static str)
        ensures
            r@ == priority_label(self.spec_priority()),
    {
        self.priority.as_str()
    }
}

/// The last step of enqueueing: the stored message, or that the queue
/// vanished before the write, or the failed write.
pub fn complete_enqueue<E>(message: &Message, queue: &QueueDetails, outcome: Result<EnqueueMessageOutcome, E>) -> (r: Result<EnqueuedMessage, EnqueueMessageError<E>>)
    ensures
        match outcome {
            Ok(EnqueueMessageOutcome::Enqueued) => r matches Ok(m) && m.spec_id() == message@.id
                && m.spec_queue_name() == queue@.name && m.spec_priority() == message@.priority,
            Ok(EnqueueMessageOutcome::QueueNotFound) => r == Err::<EnqueuedMessage, EnqueueMessageError<E>>(EnqueueMessageError::QueueNotFound),
            Err(e) => r == Err::<EnqueuedMessage, EnqueueMessageError<E>>(EnqueueMessageError::Persistence(e)),
        },
{
    match outcome {
        Ok(EnqueueMessageOutcome::Enqueued) => Ok(EnqueuedMessage {
            id: message.id(),
            queue_name: queue.name().to_owned(),
            priority: message.priority(),
        }),
        Ok(EnqueueMessageOutcome::QueueNotFound) => Err(EnqueueMessageError::QueueNotFound),
        Err(e) => Err(EnqueueMessageError::Persistence(e)),
    }
}

// ---------------------------------------------------------- dequeue message

#[derive(Debug)]
pub enum DequeueMessageError<E> {
    QueueNotFound,
    Persistence(E),
}

impl<E> DequeueMessageError<E> {
    /// The human-readable description of the error.
    pub fn message(&self) -> (r: &'static str)
        ensures
            r@ == (match *self {
                DequeueMessageError::QueueNotFound => "the requested queue does not exist"@,
                DequeueMessageError::Persistence(_) => "failed to dequeue a message"@,
            }),
    {
        match self {
            DequeueMessageError::QueueNotFound => "the requested queue does not exist",
            DequeueMessageError::Persistence(_) => "failed to dequeue a message",
        }
    }
}

#[derive(Debug)]
pub struct DequeueMessageCommand {
    queue_id: u128,
}

impl DequeueMessageCommand {
    pub closed spec fn spec_queue_id(&self) -> u128 {
        self.queue_id
    }

    pub fn new(queue_id: u128) -> (r: Self)
        ensures
            r.spec_queue_id() == queue_id,
    {
        DequeueMessageCommand { queue_id }
    }

    /// The first step of dequeueing: the queue to lease from and a fresh
    /// random receipt handle for the delivery.
    pub fn into_lease_request(self) -> (r: (u128, u128))
        ensures
            r.0 == self.spec_queue_id(),
            is_rfc_uuid_of_version(r.1, 4),
    {
        (self.queue_id, new_random_id())
    }
}

pub struct DequeuedMessageView {
    pub id: u128,
    pub payload: Seq<char>,
    pub priority: MessagePriority,
    pub receipt_handle: u128,
    pub delivery_attempts: u16,
}

/// A leased message, handed to the consumer.
#[derive(Debug)]
pub struct DequeuedMessage {
    id: u128,
    payload: String,
    priority: MessagePriority,
    receipt_handle: u128,
    delivery_attempts: u16,
}

impl View for DequeuedMessage {
    type V = DequeuedMessageView;

    closed spec fn view(&self) -> DequeuedMessageView {
        DequeuedMessageView {
            id: self.id,
            payload: self.payload@,
            priority: self.priority,
            receipt_handle: self.receipt_handle,
            delivery_attempts: self.delivery_attempts,
        }
    }
}

impl DequeuedMessage {
    pub fn id(&self) -> (r: u128)
        ensures
            r == self@.id,
    {
        self.id
    }

    pub fn payload(&self) -> (r: &str)
        ensures
            r@ == self@.payload,
    {
        self.payload.as_str()
    }

    pub fn priority(&self) -> (r: &'static str)
        ensures
            r@ == priority_label(self@.priority),
    {
        self.priority.as_str()
    }

    pub fn receipt_handle(&self) -> (r: u128)
        ensures
            r == self@.receipt_handle,
    {
        self.receipt_handle
    }

    pub fn delivery_attempts(&self) -> (r: u16)
        ensures
            r == self@.delivery_attempts,
    {
        self.delivery_attempts
    }
}

/// The last step of dequeueing: a leased message is handed out with the
/// repository's lease; an empty queue is no error; a missing queue is.
pub fn complete_dequeue<E>(outcome: Result<DequeueMessageOutcome, E>) -> (r: Result<Option<DequeuedMessage>, DequeueMessageError<E>>)
    ensures
        match outcome {
            Ok(DequeueMessageOutcome::Dequeued { id, payload, priority, receipt_handle, delivery_attempts }) =>
                r matches Ok(Some(m)) && m@ == (DequeuedMessageView { id, payload: payload@, priority, receipt_handle, delivery_attempts }),
            Ok(DequeueMessageOutcome::Empty) => r matches Ok(None),
            Ok(DequeueMessageOutcome::QueueNotFound) => r == Err::<Option<DequeuedMessage>, DequeueMessageError<E>>(DequeueMessageError::QueueNotFound),
            Err(e) => r == Err::<Option<DequeuedMessage>, DequeueMessageError<E>>(DequeueMessageError::Persistence(e)),
        },
{
    match outcome {
        Ok(DequeueMessageOutcome::Dequeued { id, payload, priority, receipt_handle, delivery_attempts }) => {
            Ok(Some(DequeuedMessage { id, payload, priority, receipt_handle, delivery_attempts }))
        },
        Ok(DequeueMessageOutcome::Empty) => Ok(None),
        Ok(DequeueMessageOutcome::QueueNotFound) => Err(DequeueMessageError::QueueNotFound),
        Err(e) => Err(DequeueMessageError::Persistence(e)),
    }
}

// ------------------------------------------------------ acknowledge message

#[derive(Debug)]
pub enum AcknowledgeMessageError<E> {
    QueueNotFound,
    MessageNotFound,
    ReceiptHandleInvalid,
    Persistence(E),
}

impl<E> AcknowledgeMessageError<E> {
    /// The human-readable description of the error.
    pub fn message(&self) -> (r: &'static str)
        ensures
            r@ == (match *self {
                AcknowledgeMessageError::QueueNotFound => "the requested queue does not exist"@,
                AcknowledgeMessageError::MessageNotFound => "the requested message does not exist in this queue"@,
                AcknowledgeMessageError::ReceiptHandleInvalid => "the receipt handle is not valid for the message's current unexpired delivery attempt"@,
                AcknowledgeMessageError::Persistence(_) => "failed to acknowledge the message"@,
            }),
    {
        match self {
            AcknowledgeMessageError::QueueNotFound => "the requested queue does not exist",
            AcknowledgeMessageError::MessageNotFound => "the requested message does not exist in this queue",
            AcknowledgeMessageError::ReceiptHandleInvalid => "the receipt handle is not valid for the message's current unexpired delivery attempt",
            AcknowledgeMessageError::Persistence(_) => "failed to acknowledge the message",
        }
    }
}

#[derive(Debug)]
pub struct AcknowledgeMessageCommand {
    queue_id: u128,
    message_id: u128,
    receipt_handle: u128,
}

impl AcknowledgeMessageCommand {
    pub closed spec fn spec_ids(&self) -> (u128, u128, u128) {
        (self.queue_id, self.message_id, self.receipt_handle)
    }

    pub fn new(queue_id: u128, message_id: u128, receipt_handle: u128) -> (r: Self)
        ensures
            r.spec_ids() == (queue_id, message_id, receipt_handle),
    {
        AcknowledgeMessageCommand { queue_id, message_id, receipt_handle }
    }

    pub fn queue_id(&self) -> (r: u128)
        ensures
            r == self.spec_ids().0,
    {
        self.queue_id
    }

    /// The identifiers the repository is asked to acknowledge: the queue, the
    /// message and the receipt handle of the delivery, unchanged.
    pub fn into_parts(self) -> (r: (u128, u128, u128))
        ensures
            r == self.spec_ids(),
    {
        (self.queue_id, self.message_id, self.receipt_handle)
    }
}

/// A delivery that was acknowledged.
#[derive(Debug)]
pub struct AcknowledgedMessage {
    queue_name: String,
}

impl AcknowledgedMessage {
    pub closed spec fn spec_queue_name(&self) -> Seq<char> {
        self.queue_name@
    }

    pub fn queue_name(&self) -> (r: &str)
        ensures
            r@ == self.spec_queue_name(),
    {
        self.queue_name.as_str()
    }
}

/// The second step of acknowledging, after the queue was looked up: the
/// queue, or that it does not exist, or the failed lookup.
pub fn plan_acknowledge<E>(lookup: Result<Option<QueueDetails>, E>) -> (r: Result<QueueDetails, AcknowledgeMessageError<E>>)
    ensures
        match lookup {
            Ok(Some(q)) => r == Ok::<QueueDetails, AcknowledgeMessageError<E>>(q),
            Ok(None) => r == Err::<QueueDetails, AcknowledgeMessageError<E>>(AcknowledgeMessageError::QueueNotFound),
            Err(e) => r == Err::<QueueDetails, AcknowledgeMessageError<E>>(AcknowledgeMessageError::Persistence(e)),
        },
{
    match lookup {
        Ok(Some(q)) => Ok(q),
        Ok(None) => Err(AcknowledgeMessageError::QueueNotFound),
        Err(e) => Err(AcknowledgeMessageError::Persistence(e)),
    }
}

/// The last step of acknowledging: each refusal the repository reports stays
/// distinct.
pub fn complete_acknowledge<E>(queue: &QueueDetails, outcome: Result<AcknowledgeMessageOutcome, E>) -> (r: Result<AcknowledgedMessage, AcknowledgeMessageError<E>>)
    ensures
        match outcome {
            Ok(AcknowledgeMessageOutcome::Acknowledged) => r matches Ok(a) && a.spec_queue_name() == queue@.name,
            Ok(AcknowledgeMessageOutcome::QueueNotFound) => r == Err::<AcknowledgedMessage, AcknowledgeMessageError<E>>(AcknowledgeMessageError::QueueNotFound),
            Ok(AcknowledgeMessageOutcome::MessageNotFound) => r == Err::<AcknowledgedMessage, AcknowledgeMessageError<E>>(AcknowledgeMessageError::MessageNotFound),
            Ok(AcknowledgeMessageOutcome::ReceiptHandleInvalid) => r == Err::<AcknowledgedMessage, AcknowledgeMessageError<E>>(AcknowledgeMessageError::ReceiptHandleInvalid),
            Err(e) => r == Err::<AcknowledgedMessage, AcknowledgeMessageError<E>>(AcknowledgeMessageError::Persistence(e)),
        },
{
    match outcome {
        Ok(AcknowledgeMessageOutcome::Acknowledged) => Ok(AcknowledgedMessage { queue_name: queue.name().to_owned() }),
        Ok(AcknowledgeMessageOutcome::QueueNotFound) => Err(AcknowledgeMessageError::QueueNotFound),
        Ok(AcknowledgeMessageOutcome::MessageNotFound) => Err(AcknowledgeMessageError::MessageNotFound),
        Ok(AcknowledgeMessageOutcome::ReceiptHandleInvalid) => Err(AcknowledgeMessageError::ReceiptHandleInvalid),
        Err(e) => Err(AcknowledgeMessageError::Persistence(e)),
    }
}

// ------------------------------------------------------ background processing

#[derive(Debug)]
pub enum ProcessTimedOutMessagesError<E> {
    Persistence(E),
}

#[derive(Debug)]
pub enum ProcessExpiredMessagesError<E> {
    Persistence(E),
}

#[derive(Debug)]
pub enum PurgeDeadLetterMessagesError<E> {
    RetentionOverflow,
    Persistence(E),
}

/// The summary of a timed-out processing batch is passed on unchanged.
pub fn complete_process_timed_out<E>(outcome: Result<TimeoutProcessingSummary, E>) -> (r: Result<TimeoutProcessingSummary, ProcessTimedOutMessagesError<E>>)
    ensures
        match outcome {
            Ok(s) => r == Ok::<TimeoutProcessingSummary, ProcessTimedOutMessagesError<E>>(s),
            Err(e) => r == Err::<TimeoutProcessingSummary, ProcessTimedOutMessagesError<E>>(ProcessTimedOutMessagesError::Persistence(e)),
        },
{
    match outcome {
        Ok(s) => Ok(s),
        Err(e) => Err(ProcessTimedOutMessagesError::Persistence(e)),
    }
}

/// The summary of an expiration batch is passed on unchanged.
pub fn complete_process_expired<E>(outcome: Result<ExpiredMessagesCleanupSummary, E>) -> (r: Result<ExpiredMessagesCleanupSummary, ProcessExpiredMessagesError<E>>)
    ensures
        match outcome {
            Ok(s) => r == Ok::<ExpiredMessagesCleanupSummary, ProcessExpiredMessagesError<E>>(s),
            Err(e) => r == Err::<ExpiredMessagesCleanupSummary, ProcessExpiredMessagesError<E>>(ProcessExpiredMessagesError::Persistence(e)),
        },
{
    match outcome {
        Ok(s) => Ok(s),
        Err(e) => Err(ProcessExpiredMessagesError::Persistence(e)),
    }
}

/// The retention of dead letters in whole seconds as the repository takes it:
/// refused when it does not fit a signed 64-bit count.
pub fn dead_letter_retention_seconds<E>(retention_seconds: u64) -> (r: Result<i64, PurgeDeadLetterMessagesError<E>>)
    ensures
        retention_seconds <= i64::MAX ==> r == Ok::<i64, PurgeDeadLetterMessagesError<E>>(retention_seconds as i64),
        retention_seconds > i64::MAX ==> r == Err::<i64, PurgeDeadLetterMessagesError<E>>(PurgeDeadLetterMessagesError::RetentionOverflow),
{
    if retention_seconds <= 9_223_372_036_854_775_807u64 {
        Ok(retention_seconds as i64)
    } else {
        Err(PurgeDeadLetterMessagesError::RetentionOverflow)
    }
}

/// The summary of a purge batch is passed on unchanged.
pub fn complete_purge_dead_letters<E>(outcome: Result<DeadLetterMessagesPurgeSummary, E>) -> (r: Result<DeadLetterMessagesPurgeSummary, PurgeDeadLetterMessagesError<E>>)
    ensures
        match outcome {
            Ok(s) => r == Ok::<DeadLetterMessagesPurgeSummary, PurgeDeadLetterMessagesError<E>>(s),
            Err(e) => r == Err::<DeadLetterMessagesPurgeSummary, PurgeDeadLetterMessagesError<E>>(PurgeDeadLetterMessagesError::Persistence(e)),
        },
{
    match outcome {
        Ok(s) => Ok(s),
        Err(e) => Err(PurgeDeadLetterMessagesError::Persistence(e)),
    }
}

} // verus!
