//! Identifiers of queues, messages and deliveries, held as the 128-bit
//! big-endian value of a UUID.

use vstd::prelude::*;

verus! {

/// The version field of a UUID held as its big-endian 128-bit value.
pub open spec fn uuid_version(id: u128) -> u128 {
    (id >> 76u128) & 0xfu128
}

/// The two most significant variant bits of a UUID held as its big-endian value.
pub open spec fn uuid_variant_bits(id: u128) -> u128 {
    (id >> 62u128) & 0x3u128
}

/// A UUID of the given version with the RFC 9562 variant.
pub open spec fn is_rfc_uuid_of_version(id: u128, version: u128) -> bool {
    uuid_version(id) == version && uuid_variant_bits(id) == 2
}

/// `uuid::Uuid::now_v7` followed by `as_u128`. The uuid crate builds the value
/// from the clock and random bits, setting the version nibble to 7 and the
/// variant bits to `10`; which value comes out is left unsaid (time and chance).
#[verifier::external_body]
pub fn new_time_ordered_id() -> (id: u128)
    ensures
        is_rfc_uuid_of_version(id, 7),
{
    uuid::Uuid::now_v7().as_u128()
}

/// `uuid::Uuid::new_v4` followed by `as_u128`. The uuid crate masks random bits
/// so that the version nibble is 4 and the variant bits are `10`; the random
/// bits themselves are left unsaid.
#[verifier::external_body]
pub fn new_random_id() -> (id: u128)
    ensures
        is_rfc_uuid_of_version(id, 4),
{
    uuid::Uuid::new_v4().as_u128()
}

} // verus!
