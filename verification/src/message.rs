//! Messages and their delivery priority.

use vstd::prelude::*;

use crate::ids::{is_rfc_uuid_of_version, new_time_ordered_id};
use crate::text::str_equal;

verus! {

/// Smallest accepted message time-to-live, in seconds.
pub const MIN_MESSAGE_TTL_SECONDS: u32 = 1;

/// Largest accepted message time-to-live (thirty days), in seconds.
pub const MAX_MESSAGE_TTL_SECONDS: u32 = 2_592_000;

/// Whether a time-to-live lies in the accepted range.
pub open spec fn message_ttl_in_range(ttl: u32) -> bool {
    MIN_MESSAGE_TTL_SECONDS <= ttl <= MAX_MESSAGE_TTL_SECONDS
}

/// Delivery priority of a message; higher priorities are delivered first.
#[derive(Clone, Copy, Debug, PartialEq, Eq, Structural)]
pub enum MessagePriority {
    High,
    Medium,
    Low,
}

/// The label by which a priority is accepted and reported.
pub open spec fn priority_label(p: MessagePriority) -> Seq<char> {
    match p {
        MessagePriority::High => "HIGH"@,
        MessagePriority::Medium => "MEDIUM"@,
        MessagePriority::Low => "LOW"@,
    }
}

/// The persisted rank of a priority.
pub open spec fn priority_rank(p: MessagePriority) -> i16 {
    match p {
        MessagePriority::High => 3,
        MessagePriority::Medium => 2,
        MessagePriority::Low => 1,
    }
}

/// The priority whose label is `value`, if any.
pub open spec fn priority_for_label(value: Seq<char>) -> Option<MessagePriority> {
    if value == "HIGH"@ {
        Some(MessagePriority::High)
    } else if value == "MEDIUM"@ {
        Some(MessagePriority::Medium)
    } else if value == "LOW"@ {
        Some(MessagePriority::Low)
    } else {
        None
    }
}

/// The priority persisted under `rank`, if any.
pub open spec fn priority_for_rank(rank: i16) -> Option<MessagePriority> {
    if rank == 3 {
        Some(MessagePriority::High)
    } else if rank == 2 {
        Some(MessagePriority::Medium)
    } else if rank == 1 {
        Some(MessagePriority::Low)
    } else {
        None
    }
}

/// Why a message was refused.
#[derive(Clone, Copy, Debug, PartialEq, Eq, Structural)]
pub enum MessageValidationError {
    InvalidPriority,
    InvalidTtl,
}

impl MessageValidationError {
    /// The human-readable description of the error.
    pub fn message(&self) -> (r: &'static str)
        ensures
            r@ == (match *self {
                MessageValidationError::InvalidPriority => "priority must be one of HIGH, MEDIUM or LOW"@,
                MessageValidationError::InvalidTtl => "ttl_seconds must be between 1 and 2592000 when provided"@,
            }),
    {
        match self {
            MessageValidationError::InvalidPriority => "priority must be one of HIGH, MEDIUM or LOW",
            MessageValidationError::InvalidTtl => "ttl_seconds must be between 1 and 2592000 when provided",
        }
    }
}

impl MessagePriority {
    /// Reads a priority from its label.
    pub fn parse(value: &str) -> (r: Result<MessagePriority, MessageValidationError>)
        ensures
            match priority_for_label(value@) {
                Some(p) => r == Ok::<MessagePriority, MessageValidationError>(p),
                None => r == Err::<MessagePriority, MessageValidationError>(
                    MessageValidationError::InvalidPriority,
                ),
            },
    {
        if str_equal(value, "HIGH") {
            Ok(MessagePriority::High)
        } else if str_equal(value, "MEDIUM") {
            Ok(MessagePriority::Medium)
        } else if str_equal(value, "LOW") {
            Ok(MessagePriority::Low)
        } else {
            Err(MessageValidationError::InvalidPriority)
        }
    }

    /// Reads a priority from its persisted rank.
    pub fn from_rank(rank: i16) -> (r: Option<MessagePriority>)
        ensures
            r == priority_for_rank(rank),
    {
        match rank {
            3 => Some(MessagePriority::High),
            2 => Some(MessagePriority::Medium),
            1 => Some(MessagePriority::Low),
            _ => None,
        }
    }

    /// The label of the priority.
    pub fn as_str(self) -> (r: &'static str)
        ensures
            r@ == priority_label(self),
    {
        match self {
            MessagePriority::High => "HIGH",
            MessagePriority::Medium => "MEDIUM",
            MessagePriority::Low => "LOW",
        }
    }

    /// The persisted rank of the priority.
    pub fn rank(self) -> (r: i16)
        ensures
            r == priority_rank(self),
    {
        match self {
            MessagePriority::High => 3,
            MessagePriority::Medium => 2,
            MessagePriority::Low => 1,
        }
    }
}

/// Reading the rank of a priority back gives the priority.
pub proof fn lemma_rank_round_trip(p: MessagePriority)
    ensures
        priority_for_rank(priority_rank(p)) == Some(p),
{
}

/// Reading the label of a priority back gives the priority.
pub proof fn lemma_label_round_trip(p: MessagePriority)
    ensures
        priority_for_label(priority_label(p)) == Some(p),
{
    reveal_strlit("HIGH");
    reveal_strlit("MEDIUM");
    reveal_strlit("LOW");
    assert("HIGH"@.len() == 4 && "MEDIUM"@.len() == 6 && "LOW"@.len() == 3);
    assert("HIGH"@ != "MEDIUM"@ && "HIGH"@ != "LOW"@ && "MEDIUM"@ != "LOW"@);
}

/// Ranks order priorities: a higher priority has a strictly larger rank, so
/// distinct priorities never share a rank.
pub proof fn lemma_rank_orders_priorities()
    ensures
        priority_rank(MessagePriority::High) > priority_rank(MessagePriority::Medium),
        priority_rank(MessagePriority::Medium) > priority_rank(MessagePriority::Low),
        forall|p: MessagePriority, q: MessagePriority|
            #[trigger] priority_rank(p) == #[trigger] priority_rank(q) ==> p == q,
{
}

/// Priorities are persisted as the ranks 3 (high), 2 (medium) and 1 (low);
/// no other rank reads back as a priority.
pub proof fn lemma_persisted_ranks(rank: i16)
    ensures
        priority_rank(MessagePriority::High) == 3,
        priority_rank(MessagePriority::Medium) == 2,
        priority_rank(MessagePriority::Low) == 1,
        priority_for_rank(rank) is Some <==> 1 <= rank <= 3,
{
}

/// The three priorities are accepted under exactly the labels "HIGH",
/// "MEDIUM" and "LOW", each reported back under its own label; any other
/// text names no priority.
pub proof fn lemma_priority_labels(value: Seq<char>)
    ensures
        priority_label(MessagePriority::High) == "HIGH"@,
        priority_label(MessagePriority::Medium) == "MEDIUM"@,
        priority_label(MessagePriority::Low) == "LOW"@,
        priority_for_label(value) == Some(MessagePriority::High) <==> value == "HIGH"@,
        priority_for_label(value) == Some(MessagePriority::Medium) <==> value == "MEDIUM"@,
        priority_for_label(value) == Some(MessagePriority::Low) <==> value == "LOW"@,
        value != "HIGH"@ && value != "MEDIUM"@ && value != "LOW"@ ==> priority_for_label(value) is None,
{
    reveal_strlit("HIGH");
    reveal_strlit("MEDIUM");
    reveal_strlit("LOW");
    assert("HIGH"@.len() == 4 && "MEDIUM"@.len() == 6 && "LOW"@.len() == 3);
}

/// A message is accepted exactly when its priority is a known label and its
/// time-to-live, when given, lies between one second and thirty days; a bad
/// priority is reported before a bad time-to-live.
pub proof fn lemma_message_acceptance(priority: Seq<char>, ttl: Option<u32>)
    ensures
        message_validation_error(priority, ttl) is None <==> (priority_for_label(priority) is Some
            && (ttl matches Some(t) ==> 1 <= t <= 2592000)),
        priority_for_label(priority) is None ==> message_validation_error(priority, ttl) == Some(MessageValidationError::InvalidPriority),
        priority_for_label(priority) is Some && (ttl matches Some(t) && (t < 1 || t > 2592000))
            ==> message_validation_error(priority, ttl) == Some(MessageValidationError::InvalidTtl),
{
}

/// The abstract content of a message.
pub struct MessageView {
    pub id: u128,
    pub payload: Seq<char>,
    pub priority: MessagePriority,
    pub ttl_seconds: Option<u32>,
}

/// A validated message, ready to be enqueued.
#[derive(Clone, Debug)]
pub struct Message {
    id: u128,
    payload: String,
    priority: MessagePriority,
    ttl_seconds: Option<u32>,
}

impl View for Message {
    type V = MessageView;

    closed spec fn view(&self) -> MessageView {
        MessageView {
            id: self.id,
            payload: self.payload@,
            priority: self.priority,
            ttl_seconds: self.ttl_seconds,
        }
    }
}

/// Whether `ttl` is absent or within the accepted range.
pub open spec fn optional_ttl_valid(ttl: Option<u32>) -> bool {
    match ttl {
        Some(t) => message_ttl_in_range(t),
        None => true,
    }
}

/// The outcome message validation owes: the error, if any, for the given input.
pub open spec fn message_validation_error(priority: Seq<char>, ttl: Option<u32>) -> Option<MessageValidationError> {
    if priority_for_label(priority) is None {
        Some(MessageValidationError::InvalidPriority)
    } else if !optional_ttl_valid(ttl) {
        Some(MessageValidationError::InvalidTtl)
    } else {
        None
    }
}

impl Message {
    /// Validates a message: its priority must be a known label and its
    /// time-to-live, when given, must lie between one second and thirty days.
    /// A valid message gets a fresh time-ordered identifier.
    pub fn new(payload: String, priority: String, ttl_seconds: Option<u32>) -> (r: Result<Message, MessageValidationError>)
        ensures
            match message_validation_error(priority@, ttl_seconds) {
                Some(e) => r == Err::<Message, MessageValidationError>(e),
                None => r matches Ok(m) && {
                    &&& m@.payload == payload@
                    &&& Some(m@.priority) == priority_for_label(priority@)
                    &&& m@.ttl_seconds == ttl_seconds
                    &&& is_rfc_uuid_of_version(m@.id, 7)
                },
            },
    {
        let priority = match MessagePriority::parse(priority.as_str()) {
            Ok(p) => p,
            Err(e) => return Err(e),
        };
        match ttl_seconds {
            Some(ttl) => {
                if ttl < MIN_MESSAGE_TTL_SECONDS || ttl > MAX_MESSAGE_TTL_SECONDS {
                    return Err(MessageValidationError::InvalidTtl);
                }
            },
            None => {},
        }
        Ok(Message { id: new_time_ordered_id(), payload, priority, ttl_seconds })
    }

    pub fn id(&self) -> (r: u128)
        ensures
            r == self@.id,
    {
        self.id
    }

    pub fn payload(&self) -> (r: &str)
        ensures
            r@ == self@.payload,
    {
        self.payload.as_str()
    }

    pub fn priority(&self) -> (r: MessagePriority)
        ensures
            r == self@.priority,
    {
        self.priority
    }

    pub fn ttl_seconds(&self) -> (r: Option<u32>)
        ensures
            r == self@.ttl_seconds,
    {
        self.ttl_seconds
    }
}

} // verus!
