//! The check that paired samples must pass before anything is computed from
//! them.

use vstd::prelude::*;
use crate::error::FitError;

verus! {

/// What the check of two sample sequences with `x_len` and `y_len` elements
/// yields: the number of pairs, or the reason for which they are refused.
/// Unequal lengths are reported before emptiness.
pub open spec fn paired_outcome(x_len: nat, y_len: nat) -> Result<nat, FitError> {
    if x_len != y_len {
        Err(FitError::LengthMismatch)
    } else if x_len == 0 {
        Err(FitError::EmptyInput)
    } else {
        Ok(x_len)
    }
}

/// Checks that `x` and `y` pair up and hold at least one pair, and returns
/// the number of pairs.
pub fn paired_len<T>(x: &[T], y: &[T]) -> (checked: Result<usize, FitError>)
    ensures
        match checked {
            Ok(n) => paired_outcome(x@.len(), y@.len()) == Ok::<nat, FitError>(n as nat),
            Err(e) => paired_outcome(x@.len(), y@.len()) == Err::<nat, FitError>(e),
        },
{
    if x.len() != y.len() {
        return Err(FitError::LengthMismatch);
    }
    let n: usize = x.len();
    if n == 0 {
        return Err(FitError::EmptyInput);
    }
    Ok(n)
}

} // verus!
