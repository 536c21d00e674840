//! Queues: their canonical names and delivery settings.

use vstd::prelude::*;
use vstd::utf8::encode_utf8;

use crate::ids::{is_rfc_uuid_of_version, new_time_ordered_id};
use crate::message::{message_ttl_in_range, MAX_MESSAGE_TTL_SECONDS, MIN_MESSAGE_TTL_SECONDS};

verus! {

pub const MIN_QUEUE_NAME_LENGTH: usize = 1;
pub const MAX_QUEUE_NAME_LENGTH: usize = 64;

pub const DEFAULT_VISIBILITY_TIMEOUT_SECONDS: u32 = 30;
pub const MIN_VISIBILITY_TIMEOUT_SECONDS: u32 = 1;
pub const MAX_VISIBILITY_TIMEOUT_SECONDS: u32 = 21600;

pub const DEFAULT_MAX_DELIVERY_ATTEMPTS: u16 = 5;
pub const MIN_MAX_DELIVERY_ATTEMPTS: u16 = 1;
pub const MAX_MAX_DELIVERY_ATTEMPTS: u16 = 100;

/// Time-to-live given to messages of a queue that sets none (seven days).
pub const DEFAULT_MESSAGE_TTL_SECONDS: u32 = 604_800;

/// A byte that may start or end a queue name: an ASCII lowercase letter or digit.
pub open spec fn is_name_endpoint_byte(b: u8) -> bool {
    (97 <= b && b <= 122) || (48 <= b && b <= 57)
}

/// A byte that may occur in a queue name: an endpoint byte, `.`, `_` or `-`.
pub open spec fn is_name_byte(b: u8) -> bool {
    is_name_endpoint_byte(b) || b == 46 || b == 95 || b == 45
}

/// The UTF-8 bytes of a name.
pub open spec fn name_bytes(name: Seq<char>) -> Seq<u8> {
    encode_utf8(name)
}

pub open spec fn name_length_valid(bytes: Seq<u8>) -> bool {
    MIN_QUEUE_NAME_LENGTH <= bytes.len() <= MAX_QUEUE_NAME_LENGTH
}

pub open spec fn name_format_valid(bytes: Seq<u8>) -> bool {
    &&& bytes.len() > 0
    &&& is_name_endpoint_byte(bytes[0])
    &&& is_name_endpoint_byte(bytes[bytes.len() - 1])
    &&& forall|i: int| 0 <= i < bytes.len() ==> is_name_byte(#[trigger] bytes[i])
}

/// A canonical queue name: 1 to 64 bytes of ASCII lowercase letters, digits,
/// dots, underscores or hyphens, starting and ending with a letter or digit.
pub open spec fn queue_name_valid(name: Seq<char>) -> bool {
    name_length_valid(name_bytes(name)) && name_format_valid(name_bytes(name))
}

pub open spec fn visibility_timeout_in_range(v: u32) -> bool {
    MIN_VISIBILITY_TIMEOUT_SECONDS <= v <= MAX_VISIBILITY_TIMEOUT_SECONDS
}

pub open spec fn max_delivery_attempts_in_range(v: u16) -> bool {
    MIN_MAX_DELIVERY_ATTEMPTS <= v <= MAX_MAX_DELIVERY_ATTEMPTS
}

#[derive(Clone, Copy, Debug, PartialEq, Eq, Structural)]
pub enum QueueNameError {
    InvalidLength,
    InvalidFormat,
}

impl QueueNameError {
    pub fn message(&self) -> (r: &'static str)
        ensures
            r@ == (match *self {
                QueueNameError::InvalidLength => "queue name must contain between 1 and 64 ASCII characters"@,
                QueueNameError::InvalidFormat => "queue name must contain only ASCII lowercase letters, digits, dots, underscores, or hyphens, and must start and end with an ASCII lowercase letter or digit"@,
            }),
    {
        match self {
            QueueNameError::InvalidLength => "queue name must contain between 1 and 64 ASCII characters",
            QueueNameError::InvalidFormat => "queue name must contain only ASCII lowercase letters, digits, dots, underscores, or hyphens, and must start and end with an ASCII lowercase letter or digit",
        }
    }
}

#[derive(Clone, Copy, Debug, PartialEq, Eq, Structural)]
pub enum QueueSettingsError {
    InvalidVisibilityTimeout,
    InvalidMaxDeliveryAttempts,
    InvalidDefaultMessageTtl,
}

impl QueueSettingsError {
    pub fn message(&self) -> (r: &'static str)
        ensures
            r@ == (match *self {
                QueueSettingsError::InvalidVisibilityTimeout => "visibility timeout must be between 1 and 21600 seconds"@,
                QueueSettingsError::InvalidMaxDeliveryAttempts => "max delivery attempts must be between 1 and 100"@,
                QueueSettingsError::InvalidDefaultMessageTtl => "default message TTL must be between 1 and 2592000 seconds"@,
            }),
    {
        match self {
            QueueSettingsError::InvalidVisibilityTimeout => "visibility timeout must be between 1 and 21600 seconds",
            QueueSettingsError::InvalidMaxDeliveryAttempts => "max delivery attempts must be between 1 and 100",
            QueueSettingsError::InvalidDefaultMessageTtl => "default message TTL must be between 1 and 2592000 seconds",
        }
    }
}

#[derive(Clone, Copy, Debug, PartialEq, Eq, Structural)]
pub enum QueueValidationError {
    InvalidName(QueueNameError),
    InvalidSettings(QueueSettingsError),
}

/// The error, if any, that checking a name owes.
pub open spec fn queue_name_error(name: Seq<char>) -> Option<QueueNameError> {
    if !name_length_valid(name_bytes(name)) {
        Some(QueueNameError::InvalidLength)
    } else if !name_format_valid(name_bytes(name)) {
        Some(QueueNameError::InvalidFormat)
    } else {
        None
    }
}

/// The effective settings of a queue, or the first setting that is out of range.
pub open spec fn settings_outcome(
    visibility_timeout_seconds: Option<u32>,
    max_delivery_attempts: Option<u16>,
    default_message_ttl_seconds: Option<u32>,
) -> Result<(u32, u16, u32), QueueSettingsError> {
    let v = visibility_timeout_seconds.unwrap_or(DEFAULT_VISIBILITY_TIMEOUT_SECONDS);
    let m = max_delivery_attempts.unwrap_or(DEFAULT_MAX_DELIVERY_ATTEMPTS);
    let t = default_message_ttl_seconds.unwrap_or(DEFAULT_MESSAGE_TTL_SECONDS);
    if !visibility_timeout_in_range(v) {
        Err(QueueSettingsError::InvalidVisibilityTimeout)
    } else if !max_delivery_attempts_in_range(m) {
        Err(QueueSettingsError::InvalidMaxDeliveryAttempts)
    } else if !message_ttl_in_range(t) {
        Err(QueueSettingsError::InvalidDefaultMessageTtl)
    } else {
        Ok((v, m, t))
    }
}

/// Every accepted queue name is 1 to 64 bytes long, made only of ASCII
/// lowercase letters, digits, dots, underscores and hyphens, and starts and
/// ends with a lowercase letter or a digit.
pub proof fn lemma_accepted_names_are_canonical(name: Seq<char>)
    requires
        queue_name_error(name) is None,
    ensures
        1 <= name_bytes(name).len() <= 64,
        forall|i: int| 0 <= i < name_bytes(name).len() ==> {
            let b = #[trigger] name_bytes(name)[i];
            (97 <= b <= 122) || (48 <= b <= 57) || b == 46 || b == 95 || b == 45
        },
        (97 <= name_bytes(name)[0] <= 122) || (48 <= name_bytes(name)[0] <= 57),
        (97 <= name_bytes(name)[name_bytes(name).len() - 1] <= 122)
            || (48 <= name_bytes(name)[name_bytes(name).len() - 1] <= 57),
{
}

/// A name of acceptable length that holds any byte other than an ASCII
/// lowercase letter, a digit, a dot, an underscore or a hyphen (an uppercase
/// letter, a space, a non-ASCII character) is refused as badly formed.
pub proof fn lemma_foreign_bytes_are_refused(name: Seq<char>, i: int)
    requires
        1 <= name_bytes(name).len() <= 64,
        0 <= i < name_bytes(name).len(),
        !((97 <= name_bytes(name)[i] <= 122) || (48 <= name_bytes(name)[i] <= 57)
            || name_bytes(name)[i] == 46 || name_bytes(name)[i] == 95 || name_bytes(name)[i] == 45),
    ensures
        queue_name_error(name) == Some(QueueNameError::InvalidFormat),
{
}

/// A name shorter than one byte or longer than 64 bytes is refused for its length.
pub proof fn lemma_name_length_is_bounded(name: Seq<char>)
    requires
        name_bytes(name).len() == 0 || name_bytes(name).len() > 64,
    ensures
        queue_name_error(name) == Some(QueueNameError::InvalidLength),
{
}

/// Creating a queue accepts its settings exactly when each lies in its range
/// once absent ones take their defaults (30 seconds, 5 attempts, 7 days).
pub proof fn lemma_queue_settings_ranges(v: Option<u32>, m: Option<u16>, t: Option<u32>)
    ensures
        settings_outcome(v, m, t) is Ok <==> {
            let vv = match v { Some(x) => x as int, None => 30 };
            let mm = match m { Some(x) => x as int, None => 5 };
            let tt = match t { Some(x) => x as int, None => 604800 };
            &&& 1 <= vv <= 21600
            &&& 1 <= mm <= 100
            &&& 1 <= tt <= 2592000
        },
        settings_outcome(v, m, t) matches Ok(values) ==> {
            &&& values.0 == (match v { Some(x) => x, None => 30u32 })
            &&& values.1 == (match m { Some(x) => x, None => 5u16 })
            &&& values.2 == (match t { Some(x) => x, None => 604800u32 })
        },
        (v matches Some(x) && (x < 1 || x > 21600)) ==> settings_outcome(v, m, t) == Err::<(u32, u16, u32), QueueSettingsError>(QueueSettingsError::InvalidVisibilityTimeout),
        (v matches Some(x) && 1 <= x <= 21600) && (m matches Some(y) && (y < 1 || y > 100))
            ==> settings_outcome(v, m, t) == Err::<(u32, u16, u32), QueueSettingsError>(QueueSettingsError::InvalidMaxDeliveryAttempts),
{
}

/// Whether a byte may start or end a queue name.
pub fn is_queue_name_endpoint(byte: u8) -> (r: bool)
    ensures
        r == is_name_endpoint_byte(byte),
{
    (97u8 <= byte && byte <= 122u8) || (48u8 <= byte && byte <= 57u8)
}

/// Whether a byte may occur in a queue name.
pub fn is_queue_name_character(byte: u8) -> (r: bool)
    ensures
        r == is_name_byte(byte),
{
    is_queue_name_endpoint(byte) || byte == 46u8 || byte == 95u8 || byte == 45u8
}

/// A validated queue name.
#[derive(Clone, Debug)]
pub struct QueueName {
    value: String,
}

impl View for QueueName {
    type V = Seq<char>;

    closed spec fn view(&self) -> Seq<char> {
        self.value@
    }
}

impl QueueName {
    /// Accepts `value` exactly when it is a canonical queue name.
    pub fn parse(value: String) -> (r: Result<QueueName, QueueNameError>)
        ensures
            match queue_name_error(value@) {
                Some(e) => r == Err::<QueueName, QueueNameError>(e),
                None => r matches Ok(n) && n@ == value@,
            },
    {
        let bytes = value.as_str().as_bytes();
        let len = bytes.len();
        if len < MIN_QUEUE_NAME_LENGTH || len > MAX_QUEUE_NAME_LENGTH {
            return Err(QueueNameError::InvalidLength);
        }
        let has_valid_start = is_queue_name_endpoint(bytes[0]);
        let has_valid_end = is_queue_name_endpoint(bytes[len - 1]);
        let mut all_supported = true;
        let mut i: usize = 0;
        while i < len
            invariant
                len == bytes@.len(),
                0 <= i <= len,
                all_supported == (forall|j: int| 0 <= j < i ==> is_name_byte(#[trigger] bytes@[j])),
            decreases len - i,
        {
            let ok = is_queue_name_character(bytes[i]);
            proof {
                if all_supported && ok {
                    assert forall|j: int| 0 <= j < i + 1 implies is_name_byte(#[trigger] bytes@[j]) by {
                        if j < i {
                        }
                    }
                }
            }
            all_supported = all_supported && ok;
            i = i + 1;
        }
        if !has_valid_start || !has_valid_end || !all_supported {
            return Err(QueueNameError::InvalidFormat);
        }
        Ok(QueueName { value })
    }

    pub fn as_str(&self) -> (r: &str)
        ensures
            r@ == self@,
    {
        self.value.as_str()
    }
}

/// Validated delivery settings of a queue.
#[derive(Clone, Copy, Debug)]
pub struct QueueSettings {
    visibility_timeout_seconds: u32,
    max_delivery_attempts: u16,
    default_message_ttl_seconds: u32,
}

impl QueueSettings {
    pub closed spec fn spec_values(&self) -> (u32, u16, u32) {
        (self.visibility_timeout_seconds, self.max_delivery_attempts, self.default_message_ttl_seconds)
    }

    /// Fills absent settings with their defaults and accepts them when every
    /// one lies in its range; the first setting out of range is reported.
    pub fn new(
        visibility_timeout_seconds: Option<u32>,
        max_delivery_attempts: Option<u16>,
        default_message_ttl_seconds: Option<u32>,
    ) -> (r: Result<QueueSettings, QueueSettingsError>)
        ensures
            match settings_outcome(visibility_timeout_seconds, max_delivery_attempts, default_message_ttl_seconds) {
                Ok(values) => r matches Ok(s) && s.spec_values() == values,
                Err(e) => r == Err::<QueueSettings, QueueSettingsError>(e),
            },
    {
        let visibility_timeout_seconds = match visibility_timeout_seconds {
            Some(v) => v,
            None => DEFAULT_VISIBILITY_TIMEOUT_SECONDS,
        };
        if visibility_timeout_seconds < MIN_VISIBILITY_TIMEOUT_SECONDS
            || visibility_timeout_seconds > MAX_VISIBILITY_TIMEOUT_SECONDS {
            return Err(QueueSettingsError::InvalidVisibilityTimeout);
        }
        let max_delivery_attempts = match max_delivery_attempts {
            Some(v) => v,
            None => DEFAULT_MAX_DELIVERY_ATTEMPTS,
        };
        if max_delivery_attempts < MIN_MAX_DELIVERY_ATTEMPTS
            || max_delivery_attempts > MAX_MAX_DELIVERY_ATTEMPTS {
            return Err(QueueSettingsError::InvalidMaxDeliveryAttempts);
        }
        let default_message_ttl_seconds = match default_message_ttl_seconds {
            Some(v) => v,
            None => DEFAULT_MESSAGE_TTL_SECONDS,
        };
        if default_message_ttl_seconds < MIN_MESSAGE_TTL_SECONDS
            || default_message_ttl_seconds > MAX_MESSAGE_TTL_SECONDS {
            return Err(QueueSettingsError::InvalidDefaultMessageTtl);
        }
        Ok(QueueSettings { visibility_timeout_seconds, max_delivery_attempts, default_message_ttl_seconds })
    }

    pub fn visibility_timeout_seconds(&self) -> (r: u32)
        ensures
            r == self.spec_values().0,
    {
        self.visibility_timeout_seconds
    }

    pub fn max_delivery_attempts(&self) -> (r: u16)
        ensures
            r == self.spec_values().1,
    {
        self.max_delivery_attempts
    }

    pub fn default_message_ttl_seconds(&self) -> (r: u32)
        ensures
            r == self.spec_values().2,
    {
        self.default_message_ttl_seconds
    }
}

/// The abstract content of a queue's details.
pub struct QueueDetailsView {
    pub id: u128,
    pub name: Seq<char>,
    pub visibility_timeout_seconds: u32,
    pub max_delivery_attempts: u16,
    pub default_message_ttl_seconds: u32,
}

/// Whether a queue's settings all lie in their ranges and its name is canonical.
pub open spec fn queue_details_valid(d: QueueDetailsView) -> bool {
    &&& queue_name_valid(d.name)
    &&& visibility_timeout_in_range(d.visibility_timeout_seconds)
    &&& max_delivery_attempts_in_range(d.max_delivery_attempts)
    &&& message_ttl_in_range(d.default_message_ttl_seconds)
}

/// The persisted description of a queue, as a repository reports it.
#[derive(Clone, Debug)]
pub struct QueueDetails {
    id: u128,
    name: String,
    visibility_timeout_seconds: u32,
    max_delivery_attempts: u16,
    default_message_ttl_seconds: u32,
}

impl View for QueueDetails {
    type V = QueueDetailsView;

    closed spec fn view(&self) -> QueueDetailsView {
        QueueDetailsView {
            id: self.id,
            name: self.name@,
            visibility_timeout_seconds: self.visibility_timeout_seconds,
            max_delivery_attempts: self.max_delivery_attempts,
            default_message_ttl_seconds: self.default_message_ttl_seconds,
        }
    }
}

impl QueueDetails {
    pub fn new(
        id: u128,
        name: String,
        visibility_timeout_seconds: u32,
        max_delivery_attempts: u16,
        default_message_ttl_seconds: u32,
    ) -> (r: QueueDetails)
        ensures
            r@ == (QueueDetailsView {
                id,
                name: name@,
                visibility_timeout_seconds,
                max_delivery_attempts,
                default_message_ttl_seconds,
            }),
    {
        QueueDetails { id, name, visibility_timeout_seconds, max_delivery_attempts, default_message_ttl_seconds }
    }

    pub fn id(&self) -> (r: u128)
        ensures
            r == self@.id,
    {
        self.id
    }

    pub fn name(&self) -> (r: &str)
        ensures
            r@ == self@.name,
    {
        self.name.as_str()
    }

    pub fn visibility_timeout_seconds(&self) -> (r: u32)
        ensures
            r == self@.visibility_timeout_seconds,
    {
        self.visibility_timeout_seconds
    }

    pub fn max_delivery_attempts(&self) -> (r: u16)
        ensures
            r == self@.max_delivery_attempts,
    {
        self.max_delivery_attempts
    }

    pub fn default_message_ttl_seconds(&self) -> (r: u32)
        ensures
            r == self@.default_message_ttl_seconds,
    {
        self.default_message_ttl_seconds
    }

    /// A copy with the same content.
    pub fn duplicate(&self) -> (r: QueueDetails)
        ensures
            r@ == self@,
    {
        QueueDetails {
            id: self.id,
            name: self.name.clone(),
            visibility_timeout_seconds: self.visibility_timeout_seconds,
            max_delivery_attempts: self.max_delivery_attempts,
            default_message_ttl_seconds: self.default_message_ttl_seconds,
        }
    }
}

/// A new queue with a canonical name and validated settings.
#[derive(Debug)]
pub struct Queue {
    id: u128,
    name: QueueName,
    settings: QueueSettings,
}

impl View for Queue {
    type V = QueueDetailsView;

    closed spec fn view(&self) -> QueueDetailsView {
        QueueDetailsView {
            id: self.id,
            name: self.name@,
            visibility_timeout_seconds: self.settings.spec_values().0,
            max_delivery_attempts: self.settings.spec_values().1,
            default_message_ttl_seconds: self.settings.spec_values().2,
        }
    }
}

/// The error, if any, that creating a queue from these inputs owes.
pub open spec fn queue_validation_error(
    name: Seq<char>,
    visibility_timeout_seconds: Option<u32>,
    max_delivery_attempts: Option<u16>,
    default_message_ttl_seconds: Option<u32>,
) -> Option<QueueValidationError> {
    match queue_name_error(name) {
        Some(e) => Some(QueueValidationError::InvalidName(e)),
        None => match settings_outcome(visibility_timeout_seconds, max_delivery_attempts, default_message_ttl_seconds) {
            Err(e) => Some(QueueValidationError::InvalidSettings(e)),
            Ok(_) => None,
        },
    }
}

impl Queue {
    #[verifier::type_invariant]
    spec fn valid(self) -> bool {
        queue_details_valid(self@)
    }

    /// Validates the name, then the settings (absent ones take their
    /// defaults); a valid queue gets a fresh time-ordered identifier.
    pub fn new(
        name: String,
        visibility_timeout_seconds: Option<u32>,
        max_delivery_attempts: Option<u16>,
        default_message_ttl_seconds: Option<u32>,
    ) -> (r: Result<Queue, QueueValidationError>)
        ensures
            match queue_validation_error(name@, visibility_timeout_seconds, max_delivery_attempts, default_message_ttl_seconds) {
                Some(e) => r == Err::<Queue, QueueValidationError>(e),
                None => r matches Ok(q) && {
                    let values = settings_outcome(visibility_timeout_seconds, max_delivery_attempts, default_message_ttl_seconds)->Ok_0;
                    &&& q@.name == name@
                    &&& q@.visibility_timeout_seconds == values.0
                    &&& q@.max_delivery_attempts == values.1
                    &&& q@.default_message_ttl_seconds == values.2
                    &&& is_rfc_uuid_of_version(q@.id, 7)
                    &&& queue_details_valid(q@)
                },
            },
    {
        let name = match QueueName::parse(name) {
            Ok(n) => n,
            Err(e) => return Err(QueueValidationError::InvalidName(e)),
        };
        let settings = match QueueSettings::new(visibility_timeout_seconds, max_delivery_attempts, default_message_ttl_seconds) {
            Ok(s) => s,
            Err(e) => return Err(QueueValidationError::InvalidSettings(e)),
        };
        Ok(Queue { id: new_time_ordered_id(), name, settings })
    }

    pub fn id(&self) -> (r: u128)
        ensures
            r == self@.id,
    {
        self.id
    }

    pub fn name(&self) -> (r: &str)
        ensures
            r@ == self@.name,
    {
        self.name.as_str()
    }

    pub fn visibility_timeout_seconds(&self) -> (r: u32)
        ensures
            r == self@.visibility_timeout_seconds,
    {
        self.settings.visibility_timeout_seconds()
    }

    pub fn max_delivery_attempts(&self) -> (r: u16)
        ensures
            r == self@.max_delivery_attempts,
    {
        self.settings.max_delivery_attempts()
    }

    pub fn default_message_ttl_seconds(&self) -> (r: u32)
        ensures
            r == self@.default_message_ttl_seconds,
    {
        self.settings.default_message_ttl_seconds()
    }

    /// The settings as the database columns hold them (`INTEGER`, `SMALLINT`,
    /// `INTEGER`); validated settings always fit.
    pub fn column_values(&self) -> (r: (i32, i16, i32))
        ensures
            r.0 == self@.visibility_timeout_seconds,
            r.1 == self@.max_delivery_attempts,
            r.2 == self@.default_message_ttl_seconds,
    {
        proof {
            use_type_invariant(self);
        }
        (
            self.settings.visibility_timeout_seconds() as i32,
            self.settings.max_delivery_attempts() as i16,
            self.settings.default_message_ttl_seconds() as i32,
        )
    }

    /// The persisted description of this queue.
    pub fn details(&self) -> (r: QueueDetails)
        ensures
            r@ == self@,
    {
        QueueDetails {
            id: self.id,
            name: self.name.as_str().to_owned(),
            visibility_timeout_seconds: self.settings.visibility_timeout_seconds(),
            max_delivery_attempts: self.settings.max_delivery_attempts(),
            default_message_ttl_seconds: self.settings.default_message_ttl_seconds(),
        }
    }
}

/// A validated change to a queue's settings: only the given settings change.
#[derive(Clone, Copy, Debug)]
pub struct QueueConfigurationUpdate {
    visibility_timeout_seconds: Option<u32>,
    max_delivery_attempts: Option<u16>,
    default_message_ttl_seconds: Option<u32>,
}

/// The error, if any, that checking a settings change owes: each given
/// setting must lie in its range, checked in the order of the arguments.
pub open spec fn configuration_update_error(
    visibility_timeout_seconds: Option<u32>,
    max_delivery_attempts: Option<u16>,
    default_message_ttl_seconds: Option<u32>,
) -> Option<QueueSettingsError> {
    if visibility_timeout_seconds matches Some(v) && !visibility_timeout_in_range(v) {
        Some(QueueSettingsError::InvalidVisibilityTimeout)
    } else if max_delivery_attempts matches Some(m) && !max_delivery_attempts_in_range(m) {
        Some(QueueSettingsError::InvalidMaxDeliveryAttempts)
    } else if default_message_ttl_seconds matches Some(t) && !message_ttl_in_range(t) {
        Some(QueueSettingsError::InvalidDefaultMessageTtl)
    } else {
        None
    }
}

/// A settings change is accepted exactly when every given setting lies in
/// its range; settings left out are not checked. An out-of-range maximum of
/// delivery attempts beside an acceptable visibility timeout (or none) is
/// refused as such.
pub proof fn lemma_update_checks_each_given_setting(v: Option<u32>, m: Option<u16>, t: Option<u32>)
    ensures
        configuration_update_error(v, m, t) is None <==> {
            &&& (v matches Some(x) ==> 1 <= x <= 21600)
            &&& (m matches Some(y) ==> 1 <= y <= 100)
            &&& (t matches Some(z) ==> 1 <= z <= 2592000)
        },
        (v matches Some(x) && (x < 1 || x > 21600)) ==> configuration_update_error(v, m, t) == Some(QueueSettingsError::InvalidVisibilityTimeout),
        (v matches Some(x) ==> 1 <= x <= 21600) && (m matches Some(y) && (y < 1 || y > 100))
            ==> configuration_update_error(v, m, t) == Some(QueueSettingsError::InvalidMaxDeliveryAttempts),
        (v matches Some(x) ==> 1 <= x <= 21600) && (m matches Some(y) ==> 1 <= y <= 100) && (t matches Some(z) && (z < 1 || z > 2592000))
            ==> configuration_update_error(v, m, t) == Some(QueueSettingsError::InvalidDefaultMessageTtl),
{
}

/// A change that gives every setting is accepted exactly when creating a queue
/// with those settings would accept them, and refused with the same error.
pub proof fn lemma_update_and_creation_share_ranges(v: u32, m: u16, t: u32)
    ensures
        configuration_update_error(Some(v), Some(m), Some(t)) is None <==> settings_outcome(Some(v), Some(m), Some(t)) is Ok,
        settings_outcome(Some(v), Some(m), Some(t)) matches Err(e) ==> configuration_update_error(Some(v), Some(m), Some(t)) == Some(e),
{
}

impl QueueConfigurationUpdate {
    pub closed spec fn spec_values(&self) -> (Option<u32>, Option<u16>, Option<u32>) {
        (self.visibility_timeout_seconds, self.max_delivery_attempts, self.default_message_ttl_seconds)
    }

    pub fn new(
        visibility_timeout_seconds: Option<u32>,
        max_delivery_attempts: Option<u16>,
        default_message_ttl_seconds: Option<u32>,
    ) -> (r: Result<QueueConfigurationUpdate, QueueSettingsError>)
        ensures
            match configuration_update_error(visibility_timeout_seconds, max_delivery_attempts, default_message_ttl_seconds) {
                Some(e) => r == Err::<QueueConfigurationUpdate, QueueSettingsError>(e),
                None => r matches Ok(u) && u.spec_values() == (visibility_timeout_seconds, max_delivery_attempts, default_message_ttl_seconds),
            },
    {
        if let Some(v) = visibility_timeout_seconds {
            if v < MIN_VISIBILITY_TIMEOUT_SECONDS || v > MAX_VISIBILITY_TIMEOUT_SECONDS {
                return Err(QueueSettingsError::InvalidVisibilityTimeout);
            }
        }
        if let Some(m) = max_delivery_attempts {
            if m < MIN_MAX_DELIVERY_ATTEMPTS || m > MAX_MAX_DELIVERY_ATTEMPTS {
                return Err(QueueSettingsError::InvalidMaxDeliveryAttempts);
            }
        }
        if let Some(t) = default_message_ttl_seconds {
            if t < MIN_MESSAGE_TTL_SECONDS || t > MAX_MESSAGE_TTL_SECONDS {
                return Err(QueueSettingsError::InvalidDefaultMessageTtl);
            }
        }
        Ok(QueueConfigurationUpdate { visibility_timeout_seconds, max_delivery_attempts, default_message_ttl_seconds })
    }

    pub fn visibility_timeout_seconds(&self) -> (r: Option<u32>)
        ensures
            r == self.spec_values().0,
    {
        self.visibility_timeout_seconds
    }

    pub fn max_delivery_attempts(&self) -> (r: Option<u16>)
        ensures
            r == self.spec_values().1,
    {
        self.max_delivery_attempts
    }

    pub fn default_message_ttl_seconds(&self) -> (r: Option<u32>)
        ensures
            r == self.spec_values().2,
    {
        self.default_message_ttl_seconds
    }
}

} // verus!
