//! The wall clock. The service stamps mutations with the current time;
//! everything else it guarantees holds whatever the clock returns.

use vstd::prelude::*;

verus! {

/// Relies on chrono's `DateTime::<Utc>::from(SystemTime)` and
/// `DateTime::timestamp_millis`: the current wall-clock time in
/// milliseconds since the Unix epoch. The `From` conversion maps a clock
/// set before 1970 to a negative timestamp instead of panicking. Nothing
/// is promised of the value; the clock may even move backwards between
/// calls.
#[verifier::external_body]
pub(crate) fn now_millis() -> i64 {
    chrono::DateTime::<chrono::Utc>::from(std::time::SystemTime::now()).timestamp_millis()
}

} // verus!
