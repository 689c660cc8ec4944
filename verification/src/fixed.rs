use vstd::prelude::*;

verus! {

use vstd::arithmetic::div_mod::{
    lemma_fundamental_div_mod,
    lemma_fundamental_div_mod_converse_div,
    lemma_div_is_ordered,
    lemma_div_multiples_vanish,
    lemma_div_nonincreasing,
    lemma_div_pos_is_pos,
    lemma_mod_division_less_than_divisor,
};

/// One whole unit in fixed-point representation: every scalar quantity in
/// this crate (a length in pixels, a scale factor, a duration in
/// milliseconds) is stored as a signed count of millionths of a unit.
pub const FP: i64 = 1_000_000;

/// Lower bound that the scale constraint imposes on its own (a fifth of
/// natural size), in fixed-point units.
pub const MIN_SCALE: i64 = 200_000;

/// Upper bound on the scale (fifteen times natural size), in fixed-point
/// units.
pub const MAX_SCALE: i64 = 15_000_000;

/// Largest scale a caller may request directly; anything at or above the
/// maximum constraint is clamped to it anyway.
pub const MAX_REQ_SCALE: i64 = 1_000_000_000_000_000;

/// Tolerance under which two transforms count as equal (one millionth of a
/// unit, the grid spacing of the representation).
pub const TOL: i64 = 1;

/// Smallest content or viewport extent: one pixel.
pub const MIN_DIM: i64 = 1_000_000;

/// Largest content or viewport extent: a million pixels.
pub const MAX_DIM: i64 = 1_000_000_000_000;

/// Largest magnitude of a pointer coordinate handed to the engine.
pub const MAX_COORD: i64 = 1_000_000_000_000;

/// Bound on the magnitude of a transform offset held by the engine; live
/// drags may push an offset out of constraint but never past this.
pub const OFF_BOUND: i64 = 100_000_000_000_000;

/// Bound on the magnitude of the offset of an inverse transform; a committed
/// transform keeps its offset small enough relative to its scale that the
/// inverse offset stays below this.
pub const INV_BOUND: i64 = 4_000_000_000_000_000_000;

/// How long a zoom or bounce-back animation runs, in fixed-point
/// milliseconds (160 ms).
pub const TARGET_ANIM_LEN: i64 = 160_000_000;

/// Wheel steps zoom by a fixed ratio: these are e^(1/2) and e^(-1/2) in
/// fixed-point units.
pub const WHEEL_IN_FACTOR: i64 = 1_648_721;

/// See [`WHEEL_IN_FACTOR`].
pub const WHEEL_OUT_FACTOR: i64 = 606_531;

/// `v` forced into `[lo, hi]`.
pub open spec fn clamp_spec(v: int, lo: int, hi: int) -> int {
    if v < lo {
        lo
    } else if v > hi {
        hi
    } else {
        v
    }
}

/// Absolute value.
pub open spec fn abs_spec(v: int) -> int {
    if v < 0 {
        -v
    } else {
        v
    }
}

/// Smaller of two values.
pub open spec fn min_spec(a: int, b: int) -> int {
    if a < b {
        a
    } else {
        b
    }
}

/// Clamp a value into an inclusive range.
pub fn clamp64(v: i64, lo: i64, hi: i64) -> (r: i64)
    requires
        lo <= hi,
    ensures
        r == clamp_spec(v as int, lo as int, hi as int),
{
    if v < lo {
        lo
    } else if v > hi {
        hi
    } else {
        v
    }
}

/// Clamp a wide intermediate value into an inclusive `i64` range.
pub fn clamp128(v: i128, lo: i64, hi: i64) -> (r: i64)
    requires
        lo <= hi,
    ensures
        r == clamp_spec(v as int, lo as int, hi as int),
{
    if v < lo as i128 {
        lo
    } else if v > hi as i128 {
        hi
    } else {
        v as i64
    }
}

/// Division rounding toward negative infinity, which is what `/` means on
/// `int` in contracts when the divisor is positive.
pub fn div_floor_i128(a: i128, b: i128) -> (r: i128)
    requires
        0 < b,
        i128::MIN < a,
    ensures
        r == a as int / b as int,
{
    if a >= 0 {
        a / b
    } else {
        let n: i128 = -a;
        proof {
            lemma_div_nonincreasing(n as int, b as int);
            lemma_div_pos_is_pos(n as int, b as int);
            lemma_mod_division_less_than_divisor(n as int, b as int);
            lemma_fundamental_div_mod(n as int, b as int);
        }
        let q: i128 = n / b;
        let m: i128 = n % b;
        proof {
            let nn: int = n as int;
            let bb: int = b as int;
            let qq: int = nn / bb;
            let mm: int = nn % bb;
            if mm == 0 {
                assert(a as int == (-qq) * bb + 0) by (nonlinear_arith)
                    requires
                        nn == bb * qq + mm,
                        mm == 0,
                        a as int == -nn,
                ;
                lemma_fundamental_div_mod_converse_div(a as int, bb, -qq, 0);
            } else {
                assert(a as int == (-qq - 1) * bb + (bb - mm)) by (nonlinear_arith)
                    requires
                        nn == bb * qq + mm,
                        a as int == -nn,
                ;
                lemma_fundamental_div_mod_converse_div(a as int, bb, -qq - 1, bb - mm);
            }
        }
        if m == 0 {
            -q
        } else {
            -q - 1
        }
    }
}

/// For a positive divisor, a dividend between `-k*b` and `k*b` divides to a
/// quotient between `-k` and `k`.
pub proof fn lemma_div_bounded(a: int, b: int, k: int)
    requires
        0 < b,
        0 <= k,
        -(k * b) <= a <= k * b,
    ensures
        -k <= a / b <= k,
{
    assert(b * k == k * b && b * (-k) == -(k * b)) by (nonlinear_arith);
    lemma_div_is_ordered(a, b * k, b);
    lemma_div_is_ordered(b * (-k), a, b);
    lemma_div_multiples_vanish(k, b);
    lemma_div_multiples_vanish(-k, b);
}

/// Dividing by a divisor of at least one cannot grow a bound on the
/// dividend's magnitude.
pub proof fn lemma_div_abs_bound(a: int, b: int, k: int)
    requires
        1 <= b,
        0 <= k,
        -k <= a <= k,
    ensures
        -k <= a / b <= k,
{
    assert(k * 1 <= k * b && -(k * b) <= -(k * 1)) by (nonlinear_arith)
        requires
            1 <= b,
            0 <= k,
    ;
    lemma_div_bounded(a, b, k);
}

/// A dividend at least as large as its positive divisor divides to a
/// quotient of at least one.
pub proof fn lemma_div_at_least_one(a: int, b: int)
    requires
        0 < b <= a,
    ensures
        1 <= a / b,
{
    lemma_div_is_ordered(b, a, b);
    assert(b * 1 == b) by (nonlinear_arith);
    lemma_div_multiples_vanish(1, b);
}

/// A quotient of a nonnegative dividend by a positive divisor is at most the
/// dividend and at least zero.
pub proof fn lemma_div_nonneg_le(a: int, b: int)
    requires
        0 < b,
        0 <= a,
    ensures
        0 <= a / b <= a,
{
    assert(a <= a * b && -(a * b) <= a) by (nonlinear_arith)
        requires
            0 <= a,
            0 < b,
    ;
    lemma_div_bounded(a, b, a);
}

} // verus!
