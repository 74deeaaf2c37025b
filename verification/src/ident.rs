//! Random identifier generation behind a trusted wrapper around the uuid
//! crate. The result is random: nothing is promised beyond its shape, and the
//! store re-checks uniqueness before trusting a generated identifier.

use vstd::prelude::*;

verus! {

/// Relies on `uuid::Uuid::new_v4` and its `Display` form: a random version-4
/// UUID rendered in the 36-character hyphenated format.
#[verifier::external_body]
pub(crate) fn new_uuid() -> (r: String)
    ensures
        r@.len() == 36,
{
    uuid::Uuid::new_v4().to_string()
}

} // verus!
