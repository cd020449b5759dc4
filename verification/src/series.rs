//! The check that a series must pass before a line is fitted to it.
//!
//! The samples of a series sit at the positions 0, 1, 2, … . A line through
//! them is determined only if these positions have spread, which asks for at
//! least two samples.

use vstd::prelude::*;
use crate::error::FitError;
use crate::pairs::paired_outcome;
use crate::positions::unit_steps;
use crate::spread::{lemma_unit_steps_spread_sign, spread};

verus! {

/// What the check of a series of `n` samples yields: `n`, or the reason for
/// which the series is refused. No sample is an empty input; a single sample
/// fixes no slope, as its one position has no spread.
pub open spec fn series_outcome(n: nat) -> Result<nat, FitError> {
    if n == 0 {
        Err(FitError::EmptyInput)
    } else if n == 1 {
        Err(FitError::ZeroXVariance)
    } else {
        Ok(n)
    }
}

/// A series that is not empty is refused exactly when its positions have no
/// spread, and accepted exactly when their spread is positive.
pub proof fn lemma_series_refused_without_spread(n: nat)
    ensures
        series_outcome(n) == Err::<nat, FitError>(FitError::ZeroXVariance) <==> n > 0 && spread(
            unit_steps(0, n),
        ) == 0,
        series_outcome(n) is Ok <==> spread(unit_steps(0, n)) > 0,
{
    lemma_unit_steps_spread_sign(n);
}

/// A series is refused with the error that its samples, paired with their
/// positions, are refused with, and such pairs never differ in number; an
/// accepted series is accepted as pairs too.
pub proof fn lemma_series_agrees_with_pairs(n: nat)
    ensures
        unit_steps(0, n).len() == n,
        paired_outcome(n, n) != Err::<nat, FitError>(FitError::LengthMismatch),
        paired_outcome(n, n) is Err ==> series_outcome(n) == paired_outcome(n, n),
        series_outcome(n) is Ok ==> series_outcome(n) == paired_outcome(n, n),
{
}

/// Checks that a line can be fitted to the series `y`, and returns the number
/// of its samples.
pub fn series_len<T>(y: &[T]) -> (checked: Result<usize, FitError>)
    ensures
        match checked {
            Ok(n) => series_outcome(y@.len()) == Ok::<nat, FitError>(n as nat),
            Err(e) => series_outcome(y@.len()) == Err::<nat, FitError>(e),
        },
{
    let n: usize = y.len();
    if n == 0 {
        Err(FitError::EmptyInput)
    } else if n == 1 {
        Err(FitError::ZeroXVariance)
    } else {
        Ok(n)
    }
}

} // verus!
