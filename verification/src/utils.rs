//! Small general-purpose helpers.

use vstd::prelude::*;

verus! {

/// Applies `op` to whichever value the result holds, keeping which side it
/// was on.
pub fn result_map_both<T, U, F: FnOnce(T) -> U>(result: Result<T, T>, op: F) -> (mapped: Result<
    U,
    U,
>)
    requires
        forall|t: T| call_requires(op, (t,)),
    ensures
        match (result, mapped) {
            (Ok(t), Ok(u)) => call_ensures(op, (t,), u),
            (Err(t), Err(u)) => call_ensures(op, (t,), u),
            _ => false,
        },
{
    match result {
        Ok(t) => Ok(op(t)),
        Err(e) => Err(op(e)),
    }
}

} // verus!
