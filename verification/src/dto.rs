//! The request and response bodies of the HTTP interface, and their
//! conversion into commands and out of results.

use vstd::prelude::*;

use crate::application::{
    AcknowledgeMessageCommand, CreateQueueCommand, DequeueMessageCommand, DequeuedMessage, EnqueueMessageCommand,
    EnqueuedMessage, UpdateQueueCommand,
};
use crate::message::priority_label;
use crate::queue::QueueDetails;

verus! {

/// The body of a queue creation request.
#[derive(Debug)]
pub struct CreateQueueRequest {
    pub name: String,
    pub visibility_timeout_seconds: Option<u32>,
    pub max_delivery_attempts: Option<u16>,
    pub default_message_ttl_seconds: Option<u32>,
}

impl CreateQueueRequest {
    pub fn into_command(self) -> (r: CreateQueueCommand)
        ensures
            r.spec_name() == self.name@,
            r.spec_settings() == (self.visibility_timeout_seconds, self.max_delivery_attempts, self.default_message_ttl_seconds),
    {
        CreateQueueCommand::new(self.name, self.visibility_timeout_seconds, self.max_delivery_attempts, self.default_message_ttl_seconds)
    }
}

/// The description of a queue in responses.
#[derive(Debug)]
pub struct QueueResponse {
    pub id: u128,
    pub name: String,
    pub visibility_timeout_seconds: u32,
    pub max_delivery_attempts: u16,
    pub default_message_ttl_seconds: u32,
}

impl QueueResponse {
    pub fn from_details(queue: QueueDetails) -> (r: QueueResponse)
        ensures
            r.id == queue@.id,
            r.name@ == queue@.name,
            r.visibility_timeout_seconds == queue@.visibility_timeout_seconds,
            r.max_delivery_attempts == queue@.max_delivery_attempts,
            r.default_message_ttl_seconds == queue@.default_message_ttl_seconds,
    {
        QueueResponse {
            id: queue.id(),
            name: queue.name().to_owned(),
            visibility_timeout_seconds: queue.visibility_timeout_seconds(),
            max_delivery_attempts: queue.max_delivery_attempts(),
            default_message_ttl_seconds: queue.default_message_ttl_seconds(),
        }
    }
}

/// The queue named by a request path.
#[derive(Debug)]
pub struct QueuePath {
    pub queue_id: u128,
}

impl QueuePath {
    pub fn into_queue_id(self) -> (r: u128)
        ensures
            r == self.queue_id,
    {
        self.queue_id
    }

    pub fn into_dequeue_command(self) -> (r: DequeueMessageCommand)
        ensures
            r.spec_queue_id() == self.queue_id,
    {
        DequeueMessageCommand::new(self.queue_id)
    }
}

/// The body of a queue update request.
#[derive(Debug)]
pub struct UpdateQueueRequest {
    pub visibility_timeout_seconds: Option<u32>,
    pub max_delivery_attempts: Option<u16>,
    pub default_message_ttl_seconds: Option<u32>,
}

impl UpdateQueueRequest {
    pub fn into_command(self, queue_id: u128) -> (r: UpdateQueueCommand)
        ensures
            r.spec_queue_id() == queue_id,
            r.spec_settings() == (self.visibility_timeout_seconds, self.max_delivery_attempts, self.default_message_ttl_seconds),
    {
        UpdateQueueCommand::new(queue_id, self.visibility_timeout_seconds, self.max_delivery_attempts, self.default_message_ttl_seconds)
    }
}

/// The body of an enqueue request.
#[derive(Debug)]
pub struct EnqueueMessageRequest {
    pub payload: String,
    pub priority: String,
    pub ttl_seconds: Option<u32>,
}

impl EnqueueMessageRequest {
    pub fn into_command(self, queue_id: u128) -> (r: EnqueueMessageCommand)
        ensures
            r.spec_queue_id() == queue_id,
            r.spec_payload() == self.payload@,
            r.spec_priority() == self.priority@,
            r.spec_ttl_seconds() == self.ttl_seconds,
    {
        EnqueueMessageCommand::new(queue_id, self.payload, self.priority, self.ttl_seconds)
    }
}

/// The answer to an enqueue: the new message's identifier.
#[derive(Debug)]
pub struct EnqueueMessageResponse {
    pub id: u128,
}

impl EnqueueMessageResponse {
    pub fn from_enqueued(message: EnqueuedMessage) -> (r: EnqueueMessageResponse)
        ensures
            r.id == message.spec_id(),
    {
        EnqueueMessageResponse { id: message.id() }
    }
}

/// The answer to a dequeue: the leased message.
#[derive(Debug)]
pub struct DequeueMessageResponse {
    pub id: u128,
    pub payload: String,
    pub priority: &'static str,
    pub receipt_handle: u128,
    pub delivery_attempts: u16,
}

impl DequeueMessageResponse {
    pub fn from_message(message: DequeuedMessage) -> (r: DequeueMessageResponse)
        ensures
            r.id == message@.id,
            r.payload@ == message@.payload,
            r.priority@ == priority_label(message@.priority),
            r.receipt_handle == message@.receipt_handle,
            r.delivery_attempts == message@.delivery_attempts,
    {
        DequeueMessageResponse {
            id: message.id(),
            payload: message.payload().to_owned(),
            priority: message.priority(),
            receipt_handle: message.receipt_handle(),
            delivery_attempts: message.delivery_attempts(),
        }
    }
}

/// The queue and message named by an acknowledgement's path.
#[derive(Debug)]
pub struct MessagePath {
    pub queue_id: u128,
    pub message_id: u128,
}

/// The body of an acknowledgement request.
#[derive(Debug)]
pub struct AcknowledgeMessageRequest {
    pub receipt_handle: u128,
}

impl AcknowledgeMessageRequest {
    pub fn into_command(self, path: MessagePath) -> (r: AcknowledgeMessageCommand)
        ensures
            r.spec_ids() == (path.queue_id, path.message_id, self.receipt_handle),
    {
        AcknowledgeMessageCommand::new(path.queue_id, path.message_id, self.receipt_handle)
    }
}

} // verus!
