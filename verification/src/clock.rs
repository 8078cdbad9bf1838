//! The clock.

use vstd::prelude::*;

verus! {

/// `time::OffsetDateTime::now_utc`, read by `unix_timestamp_nanos`: the
/// nanoseconds that have passed since the epoch by the clock of the
/// machine. Nothing is promised of the number.
#[verifier::external_body]
pub(crate) fn now_nanos() -> (t: i128) {
    time::OffsetDateTime::now_utc().unix_timestamp_nanos()
}

} // verus!
