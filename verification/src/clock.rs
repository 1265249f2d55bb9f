//! Wall-clock access for timestamping state changes.

use vstd::prelude::*;

verus! {

/// Relies on `std::time::SystemTime::now`: returns the current wall-clock
/// time as whole seconds since the Unix epoch (0 if the clock reads earlier
/// than the epoch).  Nothing can be promised of the value itself.
#[verifier::external_body]
pub fn now_seconds() -> u64 {
    match std::time::SystemTime::now().duration_since(std::time::UNIX_EPOCH) {
        Ok(d) => d.as_secs(),
        Err(_) => 0,
    }
}

} // verus!
