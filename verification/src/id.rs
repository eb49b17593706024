//! Identifier strategy, in one place, so it can change in one place.
use vstd::prelude::*;

verus! {

/// The version field of an identifier read as big-endian bytes: the high nibble of byte 6.
pub open spec fn version_of(value: u128) -> u128 {
    (value >> 76u128) & 0xfu128
}

/// A time-ordered identifier (UUID version 7): sortable by creation time and safe as a
/// primary key, as its 128-bit big-endian value.
///
/// Calls `uuid::Uuid::now_v7` and `uuid::Uuid::as_u128`. The uuid crate sets the version
/// field of every such value to 7; the time and random bits depend on the moment of the call
/// and are not stated.
#[verifier::external_body]
pub fn new_v7() -> (id: u128)
    ensures
        version_of(id) == 7,
{
    uuid::Uuid::now_v7().as_u128()
}

} // verus!
