//! Sources of fresh identifiers and of the current time.
//!
//! Both results depend on the outside world (randomness, the clock),
//! so neither carries a contract: every caller states what holds of
//! its own result whatever value came back.

use vstd::prelude::*;

verus! {

/// Relies on `uuid::Uuid::new_v4`: a randomly drawn version-4 UUID,
/// carried as its 128-bit value. Nothing is promised of the value;
/// callers check it against the store before trusting its freshness.
#[verifier::external_body]
pub(crate) fn fresh_id() -> u128 {
    uuid::Uuid::new_v4().as_u128()
}

/// Relies on `chrono::Utc::now`: the current wall-clock time, carried
/// as microseconds since the Unix epoch. Nothing is promised of the
/// value; the clock is not even monotonic.
#[verifier::external_body]
pub(crate) fn now_micros() -> i64 {
    chrono::Utc::now().timestamp_micros()
}

} // verus!
