//! The x coordinates of a series and of its forecast: consecutive unit steps.

use vstd::prelude::*;

verus! {

/// The coordinates `start, start + 1, …, start + count - 1`.
pub open spec fn unit_steps(start: int, count: nat) -> Seq<int> {
    Seq::new(count, |i: int| start + i)
}

/// The x coordinates of a series of `n` samples: 0, 1, …, `n - 1`.
pub fn series_positions(n: usize) -> (xs: Vec<usize>)
    ensures
        xs@.len() == n,
        forall|i: int| 0 <= i < n ==> xs@[i] == unit_steps(0, n as nat)[i],
{
    let mut xs: Vec<usize> = Vec::new();
    let mut next: usize = 0;
    while next < n
        invariant
            next <= n,
            xs@.len() == next,
            forall|i: int| 0 <= i < next ==> xs@[i] == i,
        decreases n - next,
    {
        xs.push(next);
        next = next + 1;
    }
    xs
}

/// The x coordinates at which a series of `len` samples is continued for
/// `horizon` further steps: `len`, `len + 1`, …, `len + horizon - 1`, in
/// this order. A horizon of zero gives no coordinate.
pub fn forecast_positions(len: usize, horizon: usize) -> (xs: Vec<u128>)
    ensures
        xs@.len() == horizon,
        forall|i: int| 0 <= i < horizon ==> xs@[i] == unit_steps(len as int, horizon as nat)[i],
{
    let mut xs: Vec<u128> = Vec::new();
    let mut step: usize = 0;
    while step < horizon
        invariant
            step <= horizon,
            xs@.len() == step,
            forall|i: int| 0 <= i < step ==> xs@[i] == len + i,
        decreases horizon - step,
    {
        xs.push(len as u128 + step as u128);
        step = step + 1;
    }
    xs
}

/// A forecast picks up where the series ends: the positions of a series of
/// `len` samples, followed by those of a forecast over `horizon` steps, are
/// the positions of a series of `len + horizon` samples.
pub proof fn lemma_forecast_continues_series(len: nat, horizon: nat)
    ensures
        unit_steps(0, len) + unit_steps(len as int, horizon) == unit_steps(0, len + horizon),
{
    assert(unit_steps(0, len) + unit_steps(len as int, horizon) =~= unit_steps(0, len + horizon));
}

/// Unit steps keep their order: a later index holds a larger coordinate,
/// exactly as much larger as the index is later.
pub proof fn lemma_unit_steps_ordered(start: int, count: nat, i: int, j: int)
    requires
        0 <= i <= j < count,
    ensures
        unit_steps(start, count)[j] - unit_steps(start, count)[i] == j - i,
{
}

} // verus!
