//! Wall-clock readings. Nothing is promised of them: every function that
//! depends on time also exists in a form that takes the reading as an argument.
use vstd::prelude::*;

verus! {

/// Milliseconds since the Unix epoch from `std::time::SystemTime::now()`,
/// or 0 when the system clock reads before the epoch. The value depends on
/// the machine's clock, so no property of it is stated.
#[verifier::external_body]
pub fn now_ms() -> u64 {
    std::time::SystemTime::now()
        .duration_since(std::time::UNIX_EPOCH)
        .map(|d| d.as_millis() as u64)
        .unwrap_or(0)
}

/// Microseconds since the Unix epoch from `std::time::SystemTime::now()`,
/// or 0 when the system clock reads before the epoch (where
/// `chrono::Utc::now` would panic). The value depends on the machine's
/// clock, so no property of it is stated.
#[verifier::external_body]
pub(crate) fn utc_now_micros() -> i64 {
    std::time::SystemTime::now()
        .duration_since(std::time::UNIX_EPOCH)
        .map(|d| d.as_micros() as i64)
        .unwrap_or(0)
}

} // verus!
