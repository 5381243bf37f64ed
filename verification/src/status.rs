//! The one success test applied to every HTTP status the tool receives.

use vstd::prelude::*;

verus! {

/// The success range of HTTP statuses.
pub open spec fn is_success_status(status: int) -> bool {
    200 <= status < 300
}

/// Whether an HTTP status counts as success.
pub fn status_is_success(status: u16) -> (r: bool)
    ensures
        r == is_success_status(status as int),
{
    200 <= status && status < 300
}

} // verus!
