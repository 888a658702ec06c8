//! Identifiers of sessions and seats.
//!
//! Both are random (version 4) UUIDs, held as the 128-bit number that the
//! UUID's sixteen bytes spell in big-endian order.

use vstd::prelude::*;

verus! {

/// Identifies a session in the registry.
pub type SessionId = u128;

/// Identifies a claimed seat. A seat that is released and claimed again gets a
/// new identifier.
pub type SeatId = u128;

/// The bits of a UUID that hold its version and its variant.
pub const VERSION_VARIANT_MASK: u128 = 0x0000_0000_0000_f000_c000_0000_0000_0000;

/// Version 4 and the RFC 9562 variant, at the places of `VERSION_VARIANT_MASK`.
pub const RANDOM_UUID_BITS: u128 = 0x0000_0000_0000_4000_8000_0000_0000_0000;

/// Whether `id` is laid out as a random UUID: its version is 4 and its variant
/// is the one of RFC 9562. The other 122 bits are free.
pub open spec fn is_random_uuid(id: u128) -> bool {
    id & VERSION_VARIANT_MASK == RANDOM_UUID_BITS
}

/// Draws a new identifier by `uuid::Uuid::new_v4` and hands it out through
/// `Uuid::as_u128`.
///
/// Trusted: the identifier comes from the random generator of the operating
/// system, so nothing is claimed of it but the version and variant bits that
/// `new_v4` sets in every UUID it returns. In particular two calls are not
/// claimed to differ. `new_v4` panics when the operating system cannot supply
/// random bytes.
#[verifier::external_body]
pub(crate) fn fresh_id() -> (id: u128)
    ensures
        is_random_uuid(id),
{
    uuid::Uuid::new_v4().as_u128()
}

} // verus!
