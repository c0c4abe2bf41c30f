//! The hardware abstraction the session layer needs from its host: a wall
//! clock.

use vstd::prelude::*;

verus! {

/// Wall-clock time in milliseconds since the Unix epoch.
///
/// Relies on std::time::SystemTime::now and SystemTime::duration_since: the
/// reading is the distance of the current clock value from the Unix epoch,
/// in whole milliseconds, and zero for a clock that reads before the epoch.
/// A clock reading promises nothing about its value, so the contract states
/// nothing.
#[verifier::external_body]
pub fn get_time_in_ms() -> u64 {
    match std::time::SystemTime::now().duration_since(std::time::UNIX_EPOCH) {
        Ok(d) => d.as_millis() as u64,
        Err(_) => 0,
    }
}

} // verus!
