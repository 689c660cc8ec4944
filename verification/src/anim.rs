use vstd::prelude::*;

verus! {

use vstd::arithmetic::div_mod::{lemma_div_is_ordered, lemma_div_multiples_vanish};
use crate::fixed::{FP, OFF_BOUND, min_spec, lemma_div_bounded};
use crate::geom::{Vec2, Transform, approx_eq_spec, approx_eq};
use crate::ease::{ease_spec, ease, lemma_ease_endpoints};

/// Linear interpolation from `a` to `b`, parameterized by `e` in
/// `[0, FP]`, rounded toward the starting value.
pub open spec fn lerp_spec(a: int, b: int, e: int) -> int {
    if b >= a {
        a + ((b - a) * e) / (FP as int)
    } else {
        a - ((a - b) * e) / (FP as int)
    }
}

/// A committed transition in flight: interpolates `from` to `to` as the
/// accumulated elapsed time runs from zero to the duration `len`, driven by
/// externally supplied tick deltas (all in fixed-point milliseconds). The
/// animation is complete exactly when the summed elapsed time has reached
/// the duration, so it never outlives its wall-time bound.
#[derive(Clone, Copy, Debug, PartialEq, Eq, Structural)]
pub struct AnimState {
    /// The starting transform.
    pub from: Transform,
    /// The target transform.
    pub to: Transform,
    /// The elapsed time accumulated so far, saturating at `len`.
    pub elapsed: i64,
    /// The duration over which progress runs from zero to `FP`.
    pub len: i64,
}

/// The normalized progress of an animation: elapsed over duration, in
/// `[0, FP]`.
pub open spec fn progress_spec(elapsed: int, len: int) -> int {
    (elapsed * FP) / len
}

/// Progress lies in `[0, FP]` and reaches `FP` exactly when the elapsed
/// time reaches the duration.
pub proof fn lemma_progress_bounds(e: int, len: int)
    requires
        0 <= e <= len,
        1 <= len,
    ensures
        0 <= progress_spec(e, len) <= FP,
        e == len ==> progress_spec(e, len) == FP,
        e < len ==> progress_spec(e, len) < FP,
{
    assert(-((FP as int) * len) <= e * FP <= (FP as int) * len) by (nonlinear_arith)
        requires
            0 <= e <= len,
            0 < FP,
    ;
    lemma_div_bounded(e * FP, len, FP as int);
    lemma_div_multiples_vanish(FP as int, len);
    assert(len * FP == FP * len) by (nonlinear_arith);
    if e < len {
        // e * FP < len * FP, so the quotient stays short of FP.
        let a: int = e * FP;
        vstd::arithmetic::div_mod::lemma_fundamental_div_mod(a, len);
        vstd::arithmetic::div_mod::lemma_mod_division_less_than_divisor(a, len);
        assert(a < len * FP) by (nonlinear_arith)
            requires
                e < len,
                0 < FP,
                a == e * FP,
        ;
        assert(a / len < FP) by (nonlinear_arith)
            requires
                a == len * (a / len) + (a % len),
                0 <= a % len,
                a < len * FP,
                0 < len,
        ;
    }
}

/// Progress never decreases as elapsed time accumulates.
pub proof fn lemma_progress_monotone(e1: int, e2: int, len: int)
    requires
        e1 <= e2,
        1 <= len,
    ensures
        progress_spec(e1, len) <= progress_spec(e2, len),
{
    assert(e1 * FP <= e2 * FP) by (nonlinear_arith)
        requires
            e1 <= e2,
            0 < FP,
    ;
    lemma_div_is_ordered(e1 * FP, e2 * FP, len);
}

impl AnimState {
    /// An animation the engine is willing to hold.
    pub open spec fn valid(self) -> bool {
        &&& self.from.valid()
        &&& self.to.valid()
        &&& 0 <= self.elapsed <= self.len
        &&& 1 <= self.len <= 1_000_000_000_000
    }

    /// The normalized progress so far.
    pub open spec fn t_spec(self) -> int {
        progress_spec(self.elapsed as int, self.len as int)
    }

    /// Horizontal offset of the interpolated transform.
    pub open spec fn cur_x_spec(self) -> int {
        lerp_spec(self.from.offset.x as int, self.to.offset.x as int, ease_spec(self.t_spec()))
    }

    /// Vertical offset of the interpolated transform.
    pub open spec fn cur_y_spec(self) -> int {
        lerp_spec(self.from.offset.y as int, self.to.offset.y as int, ease_spec(self.t_spec()))
    }

    /// Scale of the interpolated transform.
    pub open spec fn cur_scale_spec(self) -> int {
        lerp_spec(self.from.scale as int, self.to.scale as int, ease_spec(self.t_spec()))
    }

    /// The currently interpolated transform.
    pub open spec fn current_spec(self) -> Transform {
        Transform {
            offset: Vec2 { x: self.cur_x_spec() as i64, y: self.cur_y_spec() as i64 },
            scale: self.cur_scale_spec() as i64,
        }
    }

    /// Build an animation from `from` to `to`. A transition between
    /// approximately equal transforms is born complete, so no zero-length
    /// animation ever runs.
    pub fn new(from: Transform, to: Transform, len: i64) -> (r: AnimState)
        requires
            from.valid(),
            to.valid(),
            1 <= len <= 1_000_000_000_000,
        ensures
            r.from == from,
            r.to == to,
            r.len == len,
            r.elapsed == if approx_eq_spec(from, to) {
                len
            } else {
                0i64
            },
            r.valid(),
    {
        if approx_eq(&from, &to) {
            AnimState { from, to, elapsed: len, len }
        } else {
            AnimState { from, to, elapsed: 0, len }
        }
    }

    /// The normalized progress so far, in `[0, FP]`; `FP` exactly when the
    /// animation is complete.
    pub fn progress(&self) -> (r: i64)
        requires
            self.valid(),
        ensures
            r as int == self.t_spec(),
            0 <= r <= FP,
            (r == FP) == (self.elapsed == self.len),
    {
        proof {
            lemma_progress_bounds(self.elapsed as int, self.len as int);
        }
        ((self.elapsed as i128 * FP as i128) / (self.len as i128)) as i64
    }

    /// The currently interpolated transform: each component moves from its
    /// starting to its target value along the eased progress, never leaving
    /// the interval between the two.
    pub fn current(&self) -> (r: Transform)
        requires
            self.valid(),
        ensures
            r == self.current_spec(),
            r.valid(),
    {
        let e: i64 = ease(self.progress());
        let x: i64 = lerp(self.from.offset.x, self.to.offset.x, e);
        let y: i64 = lerp(self.from.offset.y, self.to.offset.y, e);
        let scale: i64 = lerp(self.from.scale, self.to.scale, e);
        Transform { offset: Vec2 { x, y }, scale }
    }

    /// Advance the animation: the elapsed time accumulates, saturating at
    /// the duration. Progress (`elapsed / len`) never decreases and never
    /// exceeds `FP`, and ticks whose deltas sum to the duration complete
    /// the animation.
    pub fn update(&mut self, delta: i64)
        requires
            old(self).valid(),
            0 <= delta,
        ensures
            final(self).from == old(self).from,
            final(self).to == old(self).to,
            final(self).len == old(self).len,
            final(self).elapsed as int == min_spec(
                old(self).len as int,
                old(self).elapsed + delta,
            ),
            old(self).elapsed <= final(self).elapsed <= final(self).len,
            old(self).t_spec() <= final(self).t_spec() <= FP,
            final(self).valid(),
    {
        let sum: i128 = self.elapsed as i128 + delta as i128;
        self.elapsed = if sum >= self.len as i128 {
            self.len
        } else {
            sum as i64
        };
        proof {
            lemma_progress_monotone(old(self).elapsed as int, self.elapsed as int, self.len as int);
            lemma_progress_bounds(self.elapsed as int, self.len as int);
        }
    }

    /// Whether the animation has finished: the accumulated elapsed time has
    /// reached the duration.
    pub fn is_complete(&self) -> (r: bool)
        ensures
            r == (self.elapsed >= self.len),
    {
        self.elapsed >= self.len
    }
}

/// Linear interpolation between two bounded values; the result stays
/// between them.
pub fn lerp(a: i64, b: i64, e: i64) -> (r: i64)
    requires
        -OFF_BOUND <= a <= OFF_BOUND,
        -OFF_BOUND <= b <= OFF_BOUND,
        0 <= e <= FP,
    ensures
        r as int == lerp_spec(a as int, b as int, e as int),
        a <= b ==> a <= r <= b,
        b <= a ==> b <= r <= a,
{
    if b >= a {
        proof {
            lemma_lerp_step(b as int - a as int, e as int);
        }
        let d: i128 = (b - a) as i128 * e as i128;
        a + (d / (FP as i128)) as i64
    } else {
        proof {
            lemma_lerp_step(a as int - b as int, e as int);
        }
        let d: i128 = (a - b) as i128 * e as i128;
        a - (d / (FP as i128)) as i64
    }
}

/// For a nonnegative difference `d` and eased progress `e` in `[0, FP]`,
/// the interpolation step `(d * e) / FP` lies in `[0, d]`.
pub proof fn lemma_lerp_step(d: int, e: int)
    requires
        0 <= d,
        0 <= e <= FP,
    ensures
        0 <= d * e <= d * (FP as int),
        0 <= (d * e) / (FP as int) <= d,
{
    assert(0 <= d * e <= d * (FP as int)) by (nonlinear_arith)
        requires
            0 <= d,
            0 <= e <= FP,
    ;
    lemma_div_bounded(d * e, FP as int, d);
}

/// An animation that has not yet started renders exactly its starting
/// transform; with [`AnimState::new`], an animation born from a retarget
/// therefore begins at the transform the previous animation showed at the
/// moment of the retarget.
pub proof fn lemma_anim_start_is_from(a: AnimState)
    requires
        a.valid(),
        a.elapsed == 0,
    ensures
        a.current_spec() == a.from,
{
    crate::fixed::lemma_div_nonneg_le(0, a.len as int);
    assert(0 * FP == 0) by (nonlinear_arith);
    lemma_ease_endpoints();
    lemma_lerp_zero(a.from.offset.x as int, a.to.offset.x as int);
    lemma_lerp_zero(a.from.offset.y as int, a.to.offset.y as int);
    lemma_lerp_zero(a.from.scale as int, a.to.scale as int);
}

/// Interpolating with eased progress zero yields the starting value.
pub proof fn lemma_lerp_zero(a: int, b: int)
    ensures
        lerp_spec(a, b, 0) == a,
{
    if b >= a {
        assert((b - a) * 0 == 0) by (nonlinear_arith);
        crate::fixed::lemma_div_nonneg_le(0, FP as int);
    } else {
        assert((a - b) * 0 == 0) by (nonlinear_arith);
        crate::fixed::lemma_div_nonneg_le(0, FP as int);
    }
}

} // verus!
