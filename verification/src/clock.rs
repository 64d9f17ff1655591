//! Readings of the system clock.
use vstd::prelude::*;

verus! {

/// `SystemTime::now().duration_since(UNIX_EPOCH)` in whole seconds
/// (`Duration::as_secs`), or `None` when the clock stands before the epoch
/// (`duration_since` returns an error). The reading depends on the machine's
/// clock, so nothing is promised of its value.
#[verifier::external_body]
pub(crate) fn unix_seconds() -> Option<u64> {
    match std::time::SystemTime::now().duration_since(std::time::UNIX_EPOCH) {
        Ok(d) => Some(d.as_secs()),
        Err(_) => None,
    }
}

/// `SystemTime::now().duration_since(UNIX_EPOCH)` in whole milliseconds
/// (`Duration::as_millis`), zero when the clock stands before the epoch
/// (`unwrap_or_default`). Nothing is promised of the value: it is the machine's clock.
#[verifier::external_body]
pub(crate) fn unix_millis() -> u128 {
    std::time::SystemTime::now().duration_since(std::time::UNIX_EPOCH).unwrap_or_default().as_millis()
}

} // verus!
