//! Wall-clock timestamps for preset metadata and session bindings.
use vstd::prelude::*;

verus! {

/// Calls `chrono::Utc::now()` and renders the instant with
/// `DateTime::to_rfc3339`. The value depends on the wall clock, so no clause
/// states what it is.
#[verifier::external_body]
pub(crate) fn now_rfc3339() -> String {
    chrono::Utc::now().to_rfc3339()
}

} // verus!
