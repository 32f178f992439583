//! The wall clock, read as microseconds since the Unix epoch.

use vstd::prelude::*;

verus! {

/// Reads the wall clock with `chrono::Local::now` and hands back the
/// instant as `DateTime::timestamp_micros` gives it: whole microseconds
/// since 1970-01-01 00:00:00 UTC. Nothing is claimed of the value, which
/// differs from call to call.
#[verifier::external_body]
pub(crate) fn current_time() -> (now: i64) {
    chrono::Local::now().timestamp_micros()
}

} // verus!
