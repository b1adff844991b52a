//! Wall-clock timestamps.

use vstd::prelude::*;
use crate::Error;

verus! {

/// Relies on `std::time::SystemTime::now` and `duration_since`: the
/// milliseconds elapsed since the UNIX epoch, or a time error when the
/// clock reads before the epoch. The result depends on the wall clock,
/// so nothing is promised of its value.
#[verifier::external_body]
pub fn timestamp() -> (r: Result<u128, Error>)
    ensures
        r matches Err(e) ==> e is Time,
{
    match std::time::SystemTime::now().duration_since(std::time::UNIX_EPOCH) {
        Ok(duration) => Ok(duration.as_millis()),
        Err(e) => Err(Error::Time(e.to_string())),
    }
}

} // verus!
