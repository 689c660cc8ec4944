use vstd::prelude::*;

verus! {

use vstd::arithmetic::div_mod::{lemma_div_is_ordered, lemma_div_multiples_vanish};
use crate::fixed::{FP, lemma_div_bounded, lemma_div_nonneg_le};

/// Cubic ease-out: `1 - (1 - t)^3` over normalized time, in fixed-point
/// units (`t` and the result both range over `[0, FP]`).
pub open spec fn ease_spec(t: int) -> int {
    FP - ((FP - t) * (FP - t) * (FP - t)) / ((FP as int) * (FP as int))
}

/// Evaluate the easing curve.
pub fn ease(t: i64) -> (r: i64)
    requires
        0 <= t <= FP,
    ensures
        r as int == ease_spec(t as int),
        0 <= r <= FP,
        t == 0 ==> r == 0,
        t == FP ==> r == FP,
{
    let u: i128 = (FP - t) as i128;
    proof {
        lemma_cube_div_bounds(u as int);
        if t == 0 {
            lemma_ease_endpoints();
        }
        if t == FP {
            assert((FP as int) * (FP as int) == 1_000_000_000_000) by (nonlinear_arith)
                requires
                    FP == 1_000_000,
            ;
            assert((u as int) * (u as int) * (u as int) == 0) by (nonlinear_arith)
                requires
                    u == 0,
            ;
            lemma_div_nonneg_le(0, 1_000_000_000_000);
        }
    }
    let cube: i128 = u * u * u;
    let e: i128 = cube / (FP as i128 * FP as i128);
    (FP as i128 - e) as i64
}

/// For `0 <= u <= FP`, the cube of `u` divided by `FP^2` lies in `[0, FP]`.
pub proof fn lemma_cube_div_bounds(u: int)
    requires
        0 <= u <= FP,
    ensures
        0 <= u * u <= 1_000_000_000_000,
        0 <= u * u * u <= 1_000_000_000_000_000_000,
        0 <= (u * u * u) / ((FP as int) * (FP as int)) <= FP,
{
    assert(0 <= u * u <= 1_000_000_000_000 && 0 <= u * u * u <= 1_000_000_000_000_000_000)
        by (nonlinear_arith)
        requires
            0 <= u <= 1_000_000,
    ;
    assert((FP as int) * (FP as int) == 1_000_000_000_000) by (nonlinear_arith)
        requires
            FP == 1_000_000,
    ;
    lemma_div_bounded(u * u * u, 1_000_000_000_000, FP as int);
    lemma_div_nonneg_le(u * u * u, 1_000_000_000_000);
}

/// The easing curve starts at zero and ends at one.
pub proof fn lemma_ease_endpoints()
    ensures
        ease_spec(0) == 0,
        ease_spec(FP as int) == FP,
{
    assert((FP as int) * (FP as int) == 1_000_000_000_000 && (FP as int) * (FP as int) * (
    FP as int) == 1_000_000_000_000 * (FP as int)) by (nonlinear_arith)
        requires
            FP == 1_000_000,
    ;
    lemma_div_multiples_vanish(FP as int, 1_000_000_000_000);
    lemma_div_nonneg_le(0, 1_000_000_000_000);
}

/// The easing curve never decreases over `[0, FP]`.
pub proof fn lemma_ease_monotone(t1: int, t2: int)
    requires
        0 <= t1 <= t2 <= FP,
    ensures
        ease_spec(t1) <= ease_spec(t2),
        0 <= ease_spec(t1) <= FP,
        0 <= ease_spec(t2) <= FP,
{
    let u1: int = FP - t1;
    let u2: int = FP - t2;
    assert(u2 * u2 * u2 <= u1 * u1 * u1) by (nonlinear_arith)
        requires
            0 <= u2 <= u1,
    ;
    assert((FP as int) * (FP as int) == 1_000_000_000_000) by (nonlinear_arith)
        requires
            FP == 1_000_000,
    ;
    lemma_div_is_ordered(u2 * u2 * u2, u1 * u1 * u1, 1_000_000_000_000);
    lemma_cube_div_bounds(u1);
    lemma_cube_div_bounds(u2);
}

} // verus!
