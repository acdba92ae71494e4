//! The wall clock.
use vstd::prelude::*;

verus! {

/// Relies on `std::time::SystemTime::now`: nanoseconds since the Unix epoch, read from
/// the system clock. A clock set before the epoch reads as the epoch itself. Nothing
/// is promised of the value.
#[verifier::external_body]
pub fn unix_time_nanos() -> (r: u64) {
    std::time::SystemTime::now()
        .duration_since(std::time::UNIX_EPOCH)
        .unwrap_or_default()
        .as_nanos() as u64
}

} // verus!
