//! The wall clock.

use vstd::prelude::*;

verus! {

/// Reads the current time with `chrono::Utc::now` and returns it as
/// microseconds since 1970-01-01 00:00:00 UTC. Trusted; nothing is claimed of
/// the value, which differs from call to call.
#[verifier::external_body]
pub(crate) fn now_micros() -> i64 {
    chrono::Utc::now().timestamp_micros()
}

} // verus!
