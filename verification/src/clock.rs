//! The wall clock.

use vstd::prelude::*;

verus! {

/// Reads the clock with `chrono::Utc::now` and writes the moment out with
/// `DateTime::to_rfc3339`. Trusted, and nothing is claimed of the text: it
/// differs from call to call. `Utc::now` panics on a machine whose clock
/// stands before 1970, which nothing handed to this function can rule out.
#[verifier::external_body]
pub(crate) fn now_rfc3339() -> (stamp: String) {
    chrono::Utc::now().to_rfc3339()
}

} // verus!
