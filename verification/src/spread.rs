//! The spread of integer coordinates: the quantity that a least-squares fit
//! divides by, in exact arithmetic.

use vstd::prelude::*;
use crate::positions::unit_steps;

verus! {

/// The sum of the elements of `xs`.
pub open spec fn total(xs: Seq<int>) -> int
    decreases xs.len(),
{
    if xs.len() == 0 {
        0
    } else {
        total(xs.drop_last()) + xs.last()
    }
}

/// The sum of the squares of the elements of `xs`.
pub open spec fn total_of_squares(xs: Seq<int>) -> int
    decreases xs.len(),
{
    if xs.len() == 0 {
        0
    } else {
        total_of_squares(xs.drop_last()) + xs.last() * xs.last()
    }
}

/// `n * Σx² - (Σx)²` over the `n` elements of `xs`: the denominator of the
/// least-squares slope.
pub open spec fn spread(xs: Seq<int>) -> int {
    xs.len() * total_of_squares(xs) - total(xs) * total(xs)
}

/// The sum of the squared distances of the elements of `xs` from `c`.
pub open spec fn squared_distance(xs: Seq<int>, c: int) -> int
    decreases xs.len(),
{
    if xs.len() == 0 {
        0
    } else {
        squared_distance(xs.drop_last(), c) + (xs.last() - c) * (xs.last() - c)
    }
}

/// All elements of `xs` are the same.
pub open spec fn constant(xs: Seq<int>) -> bool {
    forall|i: int, j: int| 0 <= i < xs.len() && 0 <= j < xs.len() ==> xs[i] == xs[j]
}

/// The squared distance from `c`, multiplied out.
proof fn lemma_squared_distance_expands(xs: Seq<int>, c: int)
    ensures
        squared_distance(xs, c) == total_of_squares(xs) - 2 * c * total(xs) + xs.len() * (c * c),
    decreases xs.len(),
{
    if xs.len() > 0 {
        let init = xs.drop_last();
        let x = xs.last();
        lemma_squared_distance_expands(init, c);
        let q = total_of_squares(init);
        let s = total(init);
        let m = init.len() as int;
        assert(q - 2 * c * s + m * (c * c) + (x - c) * (x - c) == (q + x * x) - 2 * c * (s + x) + (m
            + 1) * (c * c)) by (nonlinear_arith);
    } else {
        assert(2 * c * 0 == 0) by (nonlinear_arith);
        assert(0 * (c * c) == 0) by (nonlinear_arith);
    }
}

/// A squared distance is never negative, and it is zero exactly when every
/// element is `c`.
proof fn lemma_squared_distance_sign(xs: Seq<int>, c: int)
    ensures
        squared_distance(xs, c) >= 0,
        squared_distance(xs, c) == 0 <==> (forall|i: int| 0 <= i < xs.len() ==> xs[i] == c),
    decreases xs.len(),
{
    if xs.len() > 0 {
        let init = xs.drop_last();
        let d = xs.last() - c;
        lemma_squared_distance_sign(init, c);
        assert(d * d >= 0 && (d * d == 0 <==> d == 0)) by (nonlinear_arith);
        if squared_distance(xs, c) == 0 {
            assert forall|i: int| 0 <= i < xs.len() implies xs[i] == c by {
                if i < init.len() {
                    assert(init[i] == xs[i]);
                }
            }
        }
        if forall|i: int| 0 <= i < xs.len() ==> xs[i] == c {
            assert forall|i: int| 0 <= i < init.len() implies init[i] == c by {
                assert(init[i] == xs[i]);
            }
            assert(xs[xs.len() - 1] == c);
        }
    }
}

/// One more element adds its squared distance from the others to the spread.
proof fn lemma_spread_grows(xs: Seq<int>)
    requires
        xs.len() > 0,
    ensures
        spread(xs) == spread(xs.drop_last()) + squared_distance(xs.drop_last(), xs.last()),
{
    let init = xs.drop_last();
    let x = xs.last();
    lemma_squared_distance_expands(init, x);
    let q = total_of_squares(init);
    let s = total(init);
    let m = init.len() as int;
    assert(xs.len() == m + 1);
    assert((m + 1) * (q + x * x) - (s + x) * (s + x) == (m * q - s * s) + (q - 2 * x * s + m * (x
        * x))) by (nonlinear_arith);
}

/// The spread is never negative.
pub proof fn lemma_spread_nonnegative(xs: Seq<int>)
    ensures
        spread(xs) >= 0,
    decreases xs.len(),
{
    if xs.len() > 0 {
        lemma_spread_nonnegative(xs.drop_last());
        lemma_squared_distance_sign(xs.drop_last(), xs.last());
        lemma_spread_grows(xs);
    } else {
        assert(0 * 0 == 0) by (nonlinear_arith);
    }
}

/// Coordinates have no spread exactly when they are all the same.
pub proof fn lemma_no_spread_iff_constant(xs: Seq<int>)
    ensures
        spread(xs) == 0 <==> constant(xs),
    decreases xs.len(),
{
    if xs.len() > 0 {
        let init = xs.drop_last();
        let x = xs.last();
        lemma_no_spread_iff_constant(init);
        lemma_spread_nonnegative(init);
        lemma_squared_distance_sign(init, x);
        lemma_spread_grows(xs);
        if spread(xs) == 0 {
            assert forall|i: int, j: int| 0 <= i < xs.len() && 0 <= j < xs.len() implies xs[i]
                == xs[j] by {
                if i < init.len() {
                    assert(init[i] == x);
                }
                if j < init.len() {
                    assert(init[j] == x);
                }
            }
        }
        if constant(xs) {
            assert forall|i: int| 0 <= i < init.len() implies init[i] == x by {
                assert(xs[i] == xs[xs.len() - 1]);
            }
            assert(constant(init));
        }
    } else {
        assert(0 * 0 == 0) by (nonlinear_arith);
    }
}

/// Positions at unit steps have no spread exactly when there are fewer than
/// two of them; from two positions on the spread is positive.
pub proof fn lemma_unit_steps_spread_sign(n: nat)
    ensures
        n <= 1 <==> spread(unit_steps(0, n)) == 0,
        n >= 2 ==> spread(unit_steps(0, n)) > 0,
{
    let xs = unit_steps(0, n);
    lemma_spread_nonnegative(xs);
    lemma_no_spread_iff_constant(xs);
    if n >= 2 {
        assert(xs[0] != xs[1]);
    }
}

} // verus!
