//! The wall clock, as nanoseconds since the Unix epoch.

use vstd::prelude::*;

verus! {

/// Reads the wall clock through `std::time::SystemTime::now` and hands the
/// reading back as whole nanoseconds since the Unix epoch (zero for a clock
/// set before the epoch). Nothing is claimed of the value: two readings may
/// be in any order.
#[verifier::external_body]
pub(crate) fn now_nanos() -> (now: u128) {
    match std::time::SystemTime::now().duration_since(std::time::UNIX_EPOCH) {
        Ok(since_epoch) => since_epoch.as_nanos(),
        Err(_) => 0,
    }
}

} // verus!
