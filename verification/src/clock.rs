//! The one place the library reads the wall clock.

use vstd::prelude::*;

verus! {

/// Relies on chrono's `Utc::now`, reduced to seconds since the epoch.
/// Nothing is promised of the value: callers state what holds whatever
/// time comes back.
#[verifier::external_body]
pub(crate) fn now_ts() -> i64 {
    chrono::Utc::now().timestamp()
}

} // verus!
