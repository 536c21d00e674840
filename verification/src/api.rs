//! The problem responses the HTTP interface answers refused requests with.

use vstd::prelude::*;

use crate::application::{
    AcknowledgeMessageError, CreateQueueError, DequeueMessageError, EnqueueMessageError, UpdateQueueError,
};
use crate::message::MessageValidationError;
use crate::queue::{QueueNameError, QueueSettingsError};

verus! {

pub const STATUS_BAD_REQUEST: u16 = 400;
pub const STATUS_NOT_FOUND: u16 = 404;
pub const STATUS_CONFLICT: u16 = 409;
pub const STATUS_INTERNAL_SERVER_ERROR: u16 = 500;

/// An HTTP problem response: a status, a stable machine-readable code and a
/// human-readable detail.
#[derive(Debug)]
pub struct ApiProblem {
    status: u16,
    code: &'static str,
    detail: String,
}

impl ApiProblem {
    pub closed spec fn spec_status(&self) -> u16 {
        self.status
    }

    pub closed spec fn spec_code(&self) -> Seq<char> {
        self.code@
    }

    pub closed spec fn spec_detail(&self) -> Seq<char> {
        self.detail@
    }

    pub fn status(&self) -> (r: u16)
        ensures
            r == self.spec_status(),
    {
        self.status
    }

    pub fn code(&self) -> (r: &'static str)
        ensures
            r@ == self.spec_code(),
    {
        self.code
    }

    pub fn detail(&self) -> (r: &str)
        ensures
            r@ == self.spec_detail(),
    {
        self.detail.as_str()
    }

    fn new(status: u16, code: &'static str, detail: &str) -> (r: ApiProblem)
        ensures
            r.spec_status() == status,
            r.spec_code() == code@,
            r.spec_detail() == detail@,
    {
        ApiProblem { status, code, detail: detail.to_owned() }
    }

    /// The answer to a failure the client cannot act on; its cause is not disclosed.
    pub fn internal() -> (r: ApiProblem)
        ensures
            r.spec_status() == STATUS_INTERNAL_SERVER_ERROR,
            r.spec_code() == "internal_error"@,
            r.spec_detail() == "an internal error occurred"@,
    {
        ApiProblem::new(STATUS_INTERNAL_SERVER_ERROR, "internal_error", "an internal error occurred")
    }
}

/// Whether a problem has the given status, code and detail.
pub open spec fn is_problem(p: ApiProblem, status: u16, code: Seq<char>, detail: Seq<char>) -> bool {
    p.spec_status() == status && p.spec_code() == code && p.spec_detail() == detail
}

pub open spec fn queue_not_found_detail() -> Seq<char> {
    "the requested queue does not exist"@
}

/// How a refused queue creation is answered.
pub fn map_create_queue_error<E>(error: CreateQueueError<E>) -> (r: ApiProblem)
    ensures
        match error {
            CreateQueueError::InvalidName(e) => is_problem(r, 400, "invalid_queue_name"@, match e {
                QueueNameError::InvalidLength => "queue name must contain between 1 and 64 ASCII characters"@,
                QueueNameError::InvalidFormat => "queue name must contain only ASCII lowercase letters, digits, dots, underscores, or hyphens, and must start and end with an ASCII lowercase letter or digit"@,
            }),
            CreateQueueError::InvalidSettings(QueueSettingsError::InvalidVisibilityTimeout) =>
                is_problem(r, 400, "invalid_visibility_timeout"@, "visibility timeout must be between 1 and 21600 seconds"@),
            CreateQueueError::InvalidSettings(QueueSettingsError::InvalidMaxDeliveryAttempts) =>
                is_problem(r, 400, "invalid_max_delivery_attempts"@, "max delivery attempts must be between 1 and 100"@),
            CreateQueueError::InvalidSettings(QueueSettingsError::InvalidDefaultMessageTtl) =>
                is_problem(r, 400, "invalid_default_message_ttl"@, "default message TTL must be between 1 and 2592000 seconds"@),
            CreateQueueError::AlreadyExists =>
                is_problem(r, 409, "queue_already_exists"@, "a queue with this name already exists"@),
            CreateQueueError::Persistence(_) => is_problem(r, 500, "internal_error"@, "an internal error occurred"@),
        },
{
    match error {
        CreateQueueError::InvalidName(e) => ApiProblem::new(STATUS_BAD_REQUEST, "invalid_queue_name", e.message()),
        CreateQueueError::InvalidSettings(e) => settings_problem(e),
        CreateQueueError::AlreadyExists => ApiProblem::new(
            STATUS_CONFLICT,
            "queue_already_exists",
            "a queue with this name already exists",
        ),
        CreateQueueError::Persistence(_) => ApiProblem::internal(),
    }
}

fn settings_problem(e: QueueSettingsError) -> (r: ApiProblem)
    ensures
        match e {
            QueueSettingsError::InvalidVisibilityTimeout =>
                is_problem(r, 400, "invalid_visibility_timeout"@, "visibility timeout must be between 1 and 21600 seconds"@),
            QueueSettingsError::InvalidMaxDeliveryAttempts =>
                is_problem(r, 400, "invalid_max_delivery_attempts"@, "max delivery attempts must be between 1 and 100"@),
            QueueSettingsError::InvalidDefaultMessageTtl =>
                is_problem(r, 400, "invalid_default_message_ttl"@, "default message TTL must be between 1 and 2592000 seconds"@),
        },
{
    match e {
        QueueSettingsError::InvalidVisibilityTimeout => ApiProblem::new(STATUS_BAD_REQUEST, "invalid_visibility_timeout", e.message()),
        QueueSettingsError::InvalidMaxDeliveryAttempts => ApiProblem::new(STATUS_BAD_REQUEST, "invalid_max_delivery_attempts", e.message()),
        QueueSettingsError::InvalidDefaultMessageTtl => ApiProblem::new(STATUS_BAD_REQUEST, "invalid_default_message_ttl", e.message()),
    }
}

/// How a refused queue update is answered.
pub fn map_update_queue_error<E>(error: UpdateQueueError<E>) -> (r: ApiProblem)
    ensures
        match error {
            UpdateQueueError::NoConfigurationChanges =>
                is_problem(r, 400, "empty_queue_update"@, "at least one queue configuration field must be provided"@),
            UpdateQueueError::InvalidSettings(QueueSettingsError::InvalidVisibilityTimeout) =>
                is_problem(r, 400, "invalid_visibility_timeout"@, "visibility timeout must be between 1 and 21600 seconds"@),
            UpdateQueueError::InvalidSettings(QueueSettingsError::InvalidMaxDeliveryAttempts) =>
                is_problem(r, 400, "invalid_max_delivery_attempts"@, "max delivery attempts must be between 1 and 100"@),
            UpdateQueueError::InvalidSettings(QueueSettingsError::InvalidDefaultMessageTtl) =>
                is_problem(r, 400, "invalid_default_message_ttl"@, "default message TTL must be between 1 and 2592000 seconds"@),
            UpdateQueueError::QueueNotFound => is_problem(r, 404, "queue_not_found"@, queue_not_found_detail()),
            UpdateQueueError::Persistence(_) => is_problem(r, 500, "internal_error"@, "an internal error occurred"@),
        },
{
    match error {
        UpdateQueueError::NoConfigurationChanges => ApiProblem::new(
            STATUS_BAD_REQUEST,
            "empty_queue_update",
            "at least one queue configuration field must be provided",
        ),
        UpdateQueueError::InvalidSettings(e) => settings_problem(e),
        UpdateQueueError::QueueNotFound => ApiProblem::new(
            STATUS_NOT_FOUND,
            "queue_not_found",
            "the requested queue does not exist",
        ),
        UpdateQueueError::Persistence(_) => ApiProblem::internal(),
    }
}

/// How a refused enqueue is answered.
pub fn map_enqueue_message_error<E>(error: EnqueueMessageError<E>) -> (r: ApiProblem)
    ensures
        match error {
            EnqueueMessageError::InvalidMessage(MessageValidationError::InvalidPriority) =>
                is_problem(r, 400, "invalid_priority"@, "priority must be one of HIGH, MEDIUM or LOW"@),
            EnqueueMessageError::InvalidMessage(MessageValidationError::InvalidTtl) =>
                is_problem(r, 400, "invalid_ttl"@, "ttl_seconds must be between 1 and 2592000 when provided"@),
            EnqueueMessageError::QueueNotFound => is_problem(r, 404, "queue_not_found"@, queue_not_found_detail()),
            EnqueueMessageError::Persistence(_) => is_problem(r, 500, "internal_error"@, "an internal error occurred"@),
        },
{
    match error {
        EnqueueMessageError::InvalidMessage(e) => match e {
            MessageValidationError::InvalidPriority => ApiProblem::new(STATUS_BAD_REQUEST, "invalid_priority", e.message()),
            MessageValidationError::InvalidTtl => ApiProblem::new(STATUS_BAD_REQUEST, "invalid_ttl", e.message()),
        },
        EnqueueMessageError::QueueNotFound => ApiProblem::new(
            STATUS_NOT_FOUND,
            "queue_not_found",
            "the requested queue does not exist",
        ),
        EnqueueMessageError::Persistence(_) => ApiProblem::internal(),
    }
}

/// How a refused dequeue is answered.
pub fn map_dequeue_message_error<E>(error: DequeueMessageError<E>) -> (r: ApiProblem)
    ensures
        match error {
            DequeueMessageError::QueueNotFound => is_problem(r, 404, "queue_not_found"@, queue_not_found_detail()),
            DequeueMessageError::Persistence(_) => is_problem(r, 500, "internal_error"@, "an internal error occurred"@),
        },
{
    match error {
        DequeueMessageError::QueueNotFound => ApiProblem::new(
            STATUS_NOT_FOUND,
            "queue_not_found",
            "the requested queue does not exist",
        ),
        DequeueMessageError::Persistence(_) => ApiProblem::internal(),
    }
}

/// How a refused acknowledgement is answered.
pub fn map_acknowledge_message_error<E>(error: AcknowledgeMessageError<E>) -> (r: ApiProblem)
    ensures
        match error {
            AcknowledgeMessageError::QueueNotFound => is_problem(r, 404, "queue_not_found"@, queue_not_found_detail()),
            AcknowledgeMessageError::MessageNotFound =>
                is_problem(r, 404, "message_not_found"@, "the requested message does not exist in this queue"@),
            AcknowledgeMessageError::ReceiptHandleInvalid => is_problem(
                r,
                409,
                "invalid_receipt_handle"@,
                "the receipt handle is not valid for the message's current unexpired delivery attempt"@,
            ),
            AcknowledgeMessageError::Persistence(_) => is_problem(r, 500, "internal_error"@, "an internal error occurred"@),
        },
{
    match error {
        AcknowledgeMessageError::QueueNotFound => ApiProblem::new(
            STATUS_NOT_FOUND,
            "queue_not_found",
            "the requested queue does not exist",
        ),
        AcknowledgeMessageError::MessageNotFound => ApiProblem::new(
            STATUS_NOT_FOUND,
            "message_not_found",
            "the requested message does not exist in this queue",
        ),
        AcknowledgeMessageError::ReceiptHandleInvalid => ApiProblem::new(
            STATUS_CONFLICT,
            "invalid_receipt_handle",
            "the receipt handle is not valid for the message's current unexpired delivery attempt",
        ),
        AcknowledgeMessageError::Persistence(_) => ApiProblem::internal(),
    }
}

} // verus!
