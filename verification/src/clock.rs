//! The current time, for issuing sessions and checking their expiry.

use vstd::prelude::*;

verus! {

/// Relies on chrono's `Utc::now`: the current time as seconds since the
/// Unix epoch. Nothing is assumed of the value; the clock may say
/// anything, and every caller must hold for every reading.
#[verifier::external_body]
pub fn now_utc_seconds() -> (r: i64) {
    chrono::Utc::now().timestamp()
}

} // verus!
