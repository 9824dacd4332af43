//! The clock, an outside source the rest of the crate only consumes.
//!
//! Every other function of the crate takes timestamps as arguments, so that
//! the logic is verified for every value the clock could hand out.

use vstd::prelude::*;

verus! {

/// Relies on `std::time::SystemTime::now` and `duration_since(UNIX_EPOCH)`:
/// whole seconds since the Unix epoch, saturated into `i64`, or 0 if the
/// system clock stands before the epoch. The clock is an outside source, so
/// nothing relates two calls; only the sign is promised.
#[verifier::external_body]
pub fn now_secs() -> (r: i64)
    ensures
        r >= 0,
{
    match std::time::SystemTime::now().duration_since(std::time::UNIX_EPOCH) {
        Ok(d) => i64::try_from(d.as_secs()).unwrap_or(i64::MAX),
        Err(_) => 0,
    }
}

} // verus!
