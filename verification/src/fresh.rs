//! Freshly drawn values: the id of a new row, the current time, and a
//! random salt. Each comes from an outside source (a random number
//! generator or the clock), so nothing is promised of the draw itself;
//! every caller states what holds whatever value came back.

use vstd::prelude::*;

verus! {

/// Relies on `uuid::Uuid::new_v4`, reduced to its 128-bit value: a fresh
/// random version-4 UUID. Nothing can be promised of a random draw.
#[verifier::external_body]
pub(crate) fn fresh_id() -> u128 {
    uuid::Uuid::new_v4().as_u128()
}

/// Relies on `chrono::Utc::now`, reduced to whole seconds since the Unix
/// epoch. Nothing can be promised of the clock.
#[verifier::external_body]
pub(crate) fn now_timestamp() -> i64 {
    chrono::Utc::now().timestamp()
}

/// Relies on `rand::random`: 32 random bytes, to salt a password hash.
/// The bytes are random; only the length is promised.
#[verifier::external_body]
pub(crate) fn random_salt() -> (r: Vec<u8>)
    ensures
        r@.len() == 32,
{
    let bytes: [u8; 32] = rand::random();
    bytes.to_vec()
}

} // verus!
