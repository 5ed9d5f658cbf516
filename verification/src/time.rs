//! Wall-clock input for provisional sequence numbers.

use vstd::prelude::*;

verus! {

/// Relies on chrono::Utc::now().timestamp_millis(): the current time in
/// milliseconds since the epoch. The value depends on the clock alone, so
/// nothing is promised of it.
#[verifier::external_body]
pub(crate) fn now_timestamp_millis() -> i64 {
    chrono::Utc::now().timestamp_millis()
}

/// Reinterpret a millisecond timestamp as an unsigned provisional sequence
/// number, two's-complement style: a non-negative timestamp is kept as is, a
/// negative one wraps around.
pub fn millis_to_sequence_number(ms: i64) -> (r: u64)
    ensures
        r == ms as u64,
        ms >= 0 ==> r == ms,
{
    #[verifier::truncate] (ms as u64)
}

} // verus!
