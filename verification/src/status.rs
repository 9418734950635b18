//! Which HTTP status codes count as success.
use vstd::prelude::*;

verus! {

/// A status code is a success exactly when it lies in the 2xx range.
pub open spec fn is_success_code(status: u16) -> bool {
    200 <= status < 300
}

/// Tells whether `status` is a 2xx code.
#[verifier::when_used_as_spec(is_success_code)]
pub fn is_success(status: u16) -> (ok: bool)
    ensures
        ok == is_success_code(status),
{
    200 <= status && status < 300
}

} // verus!
