//! Wall-clock timestamps, taken on trust from an outside crate.

use vstd::prelude::*;

verus! {

/// Relies on chrono's `Utc::now().to_rfc3339()`: an RFC 3339 rendering of
/// the current time. The result depends on the clock, so nothing is
/// assumed of it beyond being non-empty.
#[verifier::external_body]
pub(crate) fn current_timestamp() -> (r: String)
    ensures
        r@.len() > 0,
{
    chrono::Utc::now().to_rfc3339()
}

} // verus!
