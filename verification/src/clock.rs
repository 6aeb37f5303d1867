//! Capture time for readings.

use vstd::prelude::*;

verus! {

/// Relies on std::time::SystemTime::now and SystemTime::duration_since: the
/// number of whole seconds since the Unix epoch at the moment of the call,
/// clamped to the epoch when the system clock reads earlier than it and to
/// the i64 maximum far beyond it, so the body is total on every clock state.
/// Nothing is assumed of the value, since it depends on the clock alone.
#[verifier::external_body]
pub(crate) fn now_unix() -> (r: i64) {
    match std::time::SystemTime::now().duration_since(std::time::UNIX_EPOCH) {
        Ok(since_epoch) => i64::try_from(since_epoch.as_secs()).unwrap_or(i64::MAX),
        Err(_) => 0,
    }
}

} // verus!
