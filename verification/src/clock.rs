//! The wall clock and fresh identifiers. Both depend on the moment of the call,
//! so nothing is promised of their values.

use vstd::prelude::*;

verus! {

/// Reads `chrono::Utc::now()` and returns it as microseconds since the Unix
/// epoch. The value depends on the time of the call; no property of it is stated.
#[verifier::external_body]
pub(crate) fn current_timestamp() -> (res: i64) {
    chrono::Utc::now().timestamp_micros()
}

/// Draws a fresh identifier with `uuid::Uuid::now_v7()` and returns its 128
/// bits. The value depends on the clock and on random bits; no property of it
/// is stated.
#[verifier::external_body]
pub(crate) fn new_uuid_v7() -> (res: u128) {
    uuid::Uuid::now_v7().as_u128()
}

} // verus!
