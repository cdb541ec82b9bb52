//! Record identities: 128-bit values in the layout of a version 7 UUID, whose
//! leading 48 bits count milliseconds, so that identities sort by creation.

use vstd::prelude::*;

verus! {

/// The four version bits of `id` say 7 and its two variant bits say RFC 9562.
pub open spec fn is_version_7(id: u128) -> bool {
    (id >> 76u128) & 0xfu128 == 7u128 && (id >> 62u128) & 0x3u128 == 2u128
}

/// Decides [`is_version_7`].
pub fn has_version_7(id: u128) -> (b: bool)
    ensures
        b == is_version_7(id),
{
    (id >> 76u128) & 0xfu128 == 7u128 && (id >> 62u128) & 0x3u128 == 2u128
}

/// Draws an identity with `uuid::Uuid::now_v7` and hands it over as the
/// number that `Uuid::as_u128` gives.
///
/// The value depends on the clock and on random bits. What holds of every
/// draw is the layout: `now_v7` writes 7 into the version field and `10` into
/// the variant field. `now_v7` panics on a machine whose clock is set before
/// 1970.
#[verifier::external_body]
pub(crate) fn draw_version_7() -> (id: u128)
    ensures
        is_version_7(id),
{
    uuid::Uuid::now_v7().as_u128()
}

} // verus!
