//! The time of day.

use vstd::prelude::*;

verus! {

/// `chrono::Utc::now` reads the system clock, and `timestamp_micros` turns
/// the reading into microseconds since the first of January 1970, UTC. Two
/// readings may come out in any order, so nothing is claimed of the result.
/// The call does not return where the clock stands before 1970.
#[verifier::external_body]
pub(crate) fn now() -> i64 {
    chrono::Utc::now().timestamp_micros()
}

} // verus!
