use vstd::prelude::*;

verus! {

use crate::fixed::{
    FP, MAX_SCALE, MIN_DIM, MAX_DIM, MAX_COORD, OFF_BOUND, TOL, INV_BOUND,
    abs_spec, div_floor_i128, lemma_div_bounded, lemma_div_nonneg_le,
};

/// A two-dimensional vector (or point) in fixed-point units.
#[derive(Clone, Copy, Debug, PartialEq, Eq, Structural)]
pub struct Vec2 {
    pub x: i64,
    pub y: i64,
}

impl Vec2 {
    /// The zero vector.
    pub open spec fn zero_spec() -> Vec2 {
        Vec2 { x: 0, y: 0 }
    }

    /// Both coordinates within the range the engine accepts from pointers.
    pub open spec fn in_coord_range(self) -> bool {
        &&& -MAX_COORD <= self.x <= MAX_COORD
        &&& -MAX_COORD <= self.y <= MAX_COORD
    }

    /// The zero vector.
    pub fn zero() -> (r: Vec2)
        ensures
            r == Vec2::zero_spec(),
    {
        Vec2 { x: 0, y: 0 }
    }
}

/// A width/height pair in fixed-point units.
#[derive(Clone, Copy, Debug, PartialEq, Eq, Structural)]
pub struct Size {
    pub width: i64,
    pub height: i64,
}

impl Size {
    /// A usable size: both extents between one pixel and a million pixels.
    pub open spec fn valid(self) -> bool {
        &&& MIN_DIM <= self.width <= MAX_DIM
        &&& MIN_DIM <= self.height <= MAX_DIM
    }
}

/// A uniform scale followed by a translation, mapping content coordinates
/// to viewport coordinates: `p * scale + offset`, with all values in
/// fixed-point units.
#[derive(Clone, Copy, Debug, PartialEq, Eq, Structural)]
pub struct Transform {
    pub offset: Vec2,
    pub scale: i64,
}

impl Transform {
    /// Scale one, zero offset.
    pub open spec fn identity_spec() -> Transform {
        Transform { offset: Vec2 { x: 0, y: 0 }, scale: FP }
    }

    /// A transform the engine is willing to hold: positive bounded scale and
    /// bounded offsets (a live drag may hold an offset outside the
    /// constraints, but never past `OFF_BOUND`).
    pub open spec fn valid(self) -> bool {
        &&& 1 <= self.scale <= MAX_SCALE
        &&& -OFF_BOUND <= self.offset.x <= OFF_BOUND
        &&& -OFF_BOUND <= self.offset.y <= OFF_BOUND
    }

    /// The offset is small enough relative to the scale that the inverse
    /// transform's offset fits the fixed-point range.
    pub open spec fn invertible(self) -> bool {
        &&& abs_spec(self.offset.x as int) * FP <= INV_BOUND * self.scale
        &&& abs_spec(self.offset.y as int) * FP <= INV_BOUND * self.scale
    }

    /// Scale of the inverse mapping.
    pub open spec fn inv_scale_spec(self) -> int {
        (FP as int * FP as int) / (self.scale as int)
    }

    /// Horizontal offset of the inverse mapping.
    pub open spec fn inv_x_spec(self) -> int {
        (-(self.offset.x as int) * FP) / (self.scale as int)
    }

    /// Vertical offset of the inverse mapping.
    pub open spec fn inv_y_spec(self) -> int {
        (-(self.offset.y as int) * FP) / (self.scale as int)
    }

    /// Scale one, zero offset.
    pub fn identity() -> (r: Transform)
        ensures
            r == Transform::identity_spec(),
    {
        Transform { offset: Vec2 { x: 0, y: 0 }, scale: FP }
    }

    /// Whether the inverse mapping is representable, so [`Transform::inverse`]
    /// may be called.
    pub fn is_invertible(&self) -> (r: bool)
        requires
            self.valid(),
        ensures
            r == self.invertible(),
    {
        let ax: i64 = if self.offset.x < 0 {
            -self.offset.x
        } else {
            self.offset.x
        };
        let ay: i64 = if self.offset.y < 0 {
            -self.offset.y
        } else {
            self.offset.y
        };
        let bound: i128 = INV_BOUND as i128 * self.scale as i128;
        (ax as i128 * FP as i128) <= bound && (ay as i128 * FP as i128) <= bound
    }

    /// The inverse mapping, from viewport coordinates back to content
    /// coordinates, rounded to the fixed-point grid.
    pub fn inverse(&self) -> (r: Transform)
        requires
            self.valid(),
            self.invertible(),
        ensures
            r.scale as int == self.inv_scale_spec(),
            r.offset.x as int == self.inv_x_spec(),
            r.offset.y as int == self.inv_y_spec(),
    {
        let s: i128 = self.scale as i128;
        proof {
            lemma_div_nonneg_le((FP as int) * (FP as int), self.scale as int);
            lemma_div_bounded(
                -(self.offset.x as int) * FP,
                self.scale as int,
                INV_BOUND as int,
            );
            lemma_div_bounded(
                -(self.offset.y as int) * FP,
                self.scale as int,
                INV_BOUND as int,
            );
        }
        let inv_s: i128 = (FP as i128 * FP as i128) / s;
        let ix: i128 = div_floor_i128(-(self.offset.x as i128) * FP as i128, s);
        let iy: i128 = div_floor_i128(-(self.offset.y as i128) * FP as i128, s);
        Transform { offset: Vec2 { x: ix as i64, y: iy as i64 }, scale: inv_s as i64 }
    }
}

/// Two transforms equal within tolerance: offsets closer than `TOL` in
/// Euclidean distance and scales closer than `TOL`.
pub open spec fn approx_eq_spec(a: Transform, b: Transform) -> bool {
    let dx = a.offset.x as int - b.offset.x as int;
    let dy = a.offset.y as int - b.offset.y as int;
    &&& dx * dx + dy * dy < TOL * TOL
    &&& abs_spec(a.scale as int - b.scale as int) < TOL
}

/// On the fixed-point grid the tolerance is the grid spacing itself, so
/// transforms equal within tolerance are equal outright.
pub proof fn lemma_approx_eq_is_eq(a: Transform, b: Transform)
    requires
        approx_eq_spec(a, b),
    ensures
        a == b,
{
    let dx: int = a.offset.x as int - b.offset.x as int;
    let dy: int = a.offset.y as int - b.offset.y as int;
    assert((TOL as int) * (TOL as int) == 1) by (nonlinear_arith)
        requires
            TOL == 1,
    ;
    assert(dx == 0 && dy == 0) by (nonlinear_arith)
        requires
            dx * dx + dy * dy < 1,
    ;
}

/// A transform is equal to itself within tolerance.
pub proof fn lemma_approx_eq_refl(a: Transform)
    ensures
        approx_eq_spec(a, a),
{
    assert((0int) * (0int) + (0int) * (0int) < (TOL as int) * (TOL as int)) by (nonlinear_arith)
        requires
            TOL == 1,
    ;
}

/// Compare two transforms for approximate equality.
pub fn approx_eq(a: &Transform, b: &Transform) -> (r: bool)
    requires
        a.valid(),
        b.valid(),
    ensures
        r == approx_eq_spec(*a, *b),
{
    let dx: i128 = a.offset.x as i128 - b.offset.x as i128;
    let dy: i128 = a.offset.y as i128 - b.offset.y as i128;
    let ds: i64 = if a.scale >= b.scale {
        a.scale - b.scale
    } else {
        b.scale - a.scale
    };
    proof {
        let dxi: int = dx as int;
        let dyi: int = dy as int;
        assert(0 <= dxi * dxi <= 40_000_000_000_000_000_000_000_000_000 && 0 <= dyi * dyi
            <= 40_000_000_000_000_000_000_000_000_000) by (nonlinear_arith)
            requires
                -200_000_000_000_000 <= dxi <= 200_000_000_000_000,
                -200_000_000_000_000 <= dyi <= 200_000_000_000_000,
        ;
        assert((TOL as int) * (TOL as int) == 1) by (nonlinear_arith)
            requires
                TOL == 1,
        ;
    }
    dx * dx + dy * dy < (TOL as i128) * (TOL as i128) && ds < TOL
}

} // verus!
