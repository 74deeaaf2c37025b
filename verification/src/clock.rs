//! The wall clock behind a trusted wrapper around the chrono crate. The
//! reading is environment-dependent, so nothing is promised of it; every
//! operation that depends on time also exists in a form that takes the
//! timestamp as an argument and is verified for every value of it.

use vstd::prelude::*;

verus! {

/// Relies on `chrono::Utc::now`: the current UTC time, in milliseconds since
/// the Unix epoch.
#[verifier::external_body]
pub(crate) fn now_millis() -> (r: i64)
{
    chrono::Utc::now().timestamp_millis()
}

} // verus!
