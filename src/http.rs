use vstd::prelude::*;

verus! {

/// The status of a request that no route matches: a `GET` is forbidden, any
/// other method is not allowed.
pub fn fallback_status(is_get: bool) -> (r: u16)
    ensures
        r == if is_get {
            403u16
        } else {
            405u16
        },
{
    if is_get {
        403
    } else {
        405
    }
}

} // verus!
