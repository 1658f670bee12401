//! The wall clock.

use vstd::prelude::*;

verus! {

/// `chrono::Utc::now`, read through `DateTime::timestamp_millis`: the current
/// time in milliseconds since the Unix epoch. Nothing is claimed of the value.
/// `Utc::now` does not return where the system clock stands before 1970.
#[verifier::external_body]
pub(crate) fn now_millis() -> i64 {
    chrono::Utc::now().timestamp_millis()
}

} // verus!
