use vstd::prelude::*;

verus! {

use vstd::arithmetic::div_mod::{
    lemma_div_is_ordered,
    lemma_div_is_ordered_by_denominator,
    lemma_fundamental_div_mod,
    lemma_mod_division_less_than_divisor,
};
use crate::fixed::{
    FP, MIN_SCALE, MAX_SCALE, MAX_REQ_SCALE, MIN_DIM, MAX_DIM, OFF_BOUND, INV_BOUND,
    clamp_spec, min_spec, abs_spec, clamp64, lemma_div_at_least_one, lemma_div_bounded,
};
use crate::geom::{Size, Vec2, Transform};

/// The scale at which the content's larger-relative-to-viewport dimension
/// exactly fills the viewport on that axis.
pub open spec fn fit_scale_spec(content: Size, viewport: Size) -> int {
    min_spec(
        (viewport.width as int * FP) / (content.width as int),
        (viewport.height as int * FP) / (content.height as int),
    )
}

/// Lower bound of the scale constraint: the fit scale where that is below
/// the configured floor (very large content may shrink enough to fit), the
/// floor otherwise.
pub open spec fn min_scale_spec(content: Size, viewport: Size) -> int {
    min_spec(fit_scale_spec(content, viewport), MIN_SCALE as int)
}

/// The nearest in-bounds scale to `scale`.
pub open spec fn constrain_scale_spec(content: Size, viewport: Size, scale: int) -> int {
    clamp_spec(scale, min_scale_spec(content, viewport), MAX_SCALE as int)
}

/// Viewport extent minus scaled content extent on one axis; positive means
/// the content is smaller than the viewport there.
pub open spec fn slack_spec(content_extent: int, viewport_extent: int, scale: int) -> int {
    viewport_extent - (content_extent * scale) / (FP as int)
}

/// The nearest in-bounds offset to `requested` on one axis: content smaller
/// than the viewport is centered; otherwise the offset is clamped so the
/// content covers the viewport edge to edge.
pub open spec fn constrain_offset_axis_spec(
    content_extent: int,
    viewport_extent: int,
    scale: int,
    requested: int,
) -> int {
    let slack = slack_spec(content_extent, viewport_extent, scale);
    if slack > 0 {
        slack / 2
    } else {
        clamp_spec(requested, slack, 0)
    }
}

/// The nearest in-bounds transform to `(x, y, s)`: the scale is constrained
/// first, then each offset axis against the constrained scale.
pub open spec fn constrain_transform_spec(
    content: Size,
    viewport: Size,
    x: int,
    y: int,
    s: int,
) -> (int, int, int) {
    let s1 = constrain_scale_spec(content, viewport, s);
    (
        constrain_offset_axis_spec(content.width as int, viewport.width as int, s1, x),
        constrain_offset_axis_spec(content.height as int, viewport.height as int, s1, y),
        s1,
    )
}

/// Compute the fit-to-viewport scale.
pub fn fit_scale(content: &Size, viewport: &Size) -> (r: i64)
    requires
        content.valid(),
        viewport.valid(),
    ensures
        r as int == fit_scale_spec(*content, *viewport),
        1 <= r <= MAX_REQ_SCALE,
{
    proof {
        lemma_fit_scale_range(*content, *viewport);
    }
    let fx: i128 = (viewport.width as i128 * FP as i128) / (content.width as i128);
    let fy: i128 = (viewport.height as i128 * FP as i128) / (content.height as i128);
    let f: i128 = if fx < fy {
        fx
    } else {
        fy
    };
    f as i64
}

/// The fit scale of valid sizes lies between one millionth and a million.
pub proof fn lemma_fit_scale_range(content: Size, viewport: Size)
    requires
        content.valid(),
        viewport.valid(),
    ensures
        1 <= fit_scale_spec(content, viewport) <= 1_000_000_000_000,
{
    let wprod: int = viewport.width as int * FP;
    let hprod: int = viewport.height as int * FP;
    lemma_div_at_least_one(wprod, content.width as int);
    lemma_div_at_least_one(hprod, content.height as int);
    lemma_div_is_ordered_by_denominator(wprod, MIN_DIM as int, content.width as int);
    lemma_div_is_ordered_by_denominator(hprod, MIN_DIM as int, content.height as int);
    lemma_div_is_ordered(wprod, MAX_DIM as int * FP, MIN_DIM as int);
    lemma_div_is_ordered(hprod, MAX_DIM as int * FP, MIN_DIM as int);
}

/// The nearest in-bounds scale to `scale`; the result always lies in
/// `[min(fit_scale, MIN_SCALE), MAX_SCALE]`, whatever was requested.
pub fn constrain_scale(content: &Size, viewport: &Size, scale: i64) -> (r: i64)
    requires
        content.valid(),
        viewport.valid(),
    ensures
        r as int == constrain_scale_spec(*content, *viewport, scale as int),
        min_scale_spec(*content, *viewport) <= r as int <= MAX_SCALE,
        1 <= r <= MAX_SCALE,
{
    let fit: i64 = fit_scale(content, viewport);
    let lo: i64 = if fit < MIN_SCALE {
        fit
    } else {
        MIN_SCALE
    };
    clamp64(scale, lo, MAX_SCALE)
}

/// The nearest in-bounds offset on one axis. If the scaled content is
/// smaller than the viewport there, it is centered exactly, at half the
/// slack; otherwise the requested offset is clamped into `[slack, 0]`.
pub fn constrain_offset_axis(
    content_extent: i64,
    viewport_extent: i64,
    scale: i64,
    requested: i64,
) -> (r: i64)
    requires
        MIN_DIM <= content_extent <= MAX_DIM,
        MIN_DIM <= viewport_extent <= MAX_DIM,
        1 <= scale <= MAX_SCALE,
    ensures
        r as int == constrain_offset_axis_spec(
            content_extent as int,
            viewport_extent as int,
            scale as int,
            requested as int,
        ),
        slack_spec(content_extent as int, viewport_extent as int, scale as int) > 0 ==> r as int
            == slack_spec(content_extent as int, viewport_extent as int, scale as int) / 2,
        -15_000_000_000_000 <= r <= 15_000_000_000_000,
        abs_spec(r as int) * FP <= INV_BOUND * scale,
{
    proof {
        lemma_scaled_extent_bounds(content_extent as int, scale as int);
    }
    let scaled: i128 = (content_extent as i128 * scale as i128) / FP as i128;
    let slack: i128 = viewport_extent as i128 - scaled;
    if slack > 0 {
        proof {
            assert(INV_BOUND * 1 <= INV_BOUND * scale) by (nonlinear_arith)
                requires
                    1 <= scale,
            ;
        }
        (slack / 2) as i64
    } else {
        proof {
            assert(MAX_DIM * scale <= INV_BOUND * scale) by (nonlinear_arith)
                requires
                    1 <= scale,
                    0 < MAX_DIM <= INV_BOUND,
            ;
        }
        clamp64(requested, slack as i64, 0)
    }
}

/// The scaled extent `(c * s) / FP` of a valid content extent at an
/// in-bounds scale stays between zero and fifteen million pixels, and
/// multiplying it back by `FP` stays at or below `c * s`.
pub proof fn lemma_scaled_extent_bounds(c: int, s: int)
    requires
        MIN_DIM <= c <= MAX_DIM,
        1 <= s <= MAX_SCALE,
    ensures
        0 <= (c * s) / (FP as int) <= 15_000_000_000_000,
        ((c * s) / (FP as int)) * FP <= c * s,
        c * s <= MAX_DIM * s,
{
    assert(0 <= c * s <= 15_000_000_000_000 * FP && c * s <= MAX_DIM * s) by (nonlinear_arith)
        requires
            MIN_DIM <= c <= MAX_DIM,
            1 <= s <= MAX_SCALE,
            MAX_SCALE * MAX_DIM == 15_000_000_000_000 * FP,
    ;
    lemma_div_bounded(c * s, FP as int, 15_000_000_000_000);
    lemma_fundamental_div_mod(c * s, FP as int);
    lemma_mod_division_less_than_divisor(c * s, FP as int);
    assert(((c * s) / (FP as int)) * FP == FP * ((c * s) / (FP as int))) by (nonlinear_arith);
}

/// The nearest in-bounds offset, per axis independently.
pub fn constrain_offset(content: &Size, viewport: &Size, scale: i64, offset: Vec2) -> (r: Vec2)
    requires
        content.valid(),
        viewport.valid(),
        1 <= scale <= MAX_SCALE,
    ensures
        r.x as int == constrain_offset_axis_spec(
            content.width as int,
            viewport.width as int,
            scale as int,
            offset.x as int,
        ),
        r.y as int == constrain_offset_axis_spec(
            content.height as int,
            viewport.height as int,
            scale as int,
            offset.y as int,
        ),
        -15_000_000_000_000 <= r.x <= 15_000_000_000_000,
        -15_000_000_000_000 <= r.y <= 15_000_000_000_000,
        abs_spec(r.x as int) * FP <= INV_BOUND * scale,
        abs_spec(r.y as int) * FP <= INV_BOUND * scale,
{
    let x: i64 = constrain_offset_axis(content.width, viewport.width, scale, offset.x);
    let y: i64 = constrain_offset_axis(content.height, viewport.height, scale, offset.y);
    Vec2 { x, y }
}

/// The nearest in-bounds transform: scale constrained first, then the
/// offset against the constrained scale.
pub fn constrain_transform(content: &Size, viewport: &Size, t: &Transform) -> (r: Transform)
    requires
        content.valid(),
        viewport.valid(),
    ensures
        (r.offset.x as int, r.offset.y as int, r.scale as int) == constrain_transform_spec(
            *content,
            *viewport,
            t.offset.x as int,
            t.offset.y as int,
            t.scale as int,
        ),
        r.valid(),
        r.invertible(),
        -15_000_000_000_000 <= r.offset.x <= 15_000_000_000_000,
        -15_000_000_000_000 <= r.offset.y <= 15_000_000_000_000,
        1 <= r.scale <= MAX_SCALE,
{
    let s1: i64 = constrain_scale(content, viewport, t.scale);
    let off: Vec2 = constrain_offset(content, viewport, s1, t.offset);
    Transform { offset: off, scale: s1 }
}

/// Whatever scale is requested, the constrained scale lies in
/// `[min(fit_scale, MIN_SCALE), MAX_SCALE]`, and in particular stays
/// positive.
pub proof fn lemma_constrain_scale_in_bounds(content: Size, viewport: Size, s: int)
    requires
        content.valid(),
        viewport.valid(),
    ensures
        min_scale_spec(content, viewport) <= constrain_scale_spec(content, viewport, s)
            <= MAX_SCALE,
        1 <= constrain_scale_spec(content, viewport, s),
{
    lemma_fit_scale_range(content, viewport);
}

/// Clamping a requested offset into the range the engine can represent
/// never changes the constrained result: the constraint window lies well
/// inside that range.
pub proof fn lemma_axis_clamp_invisible(cext: int, vext: int, s: int, req: int)
    requires
        MIN_DIM <= cext <= MAX_DIM,
        MIN_DIM <= vext <= MAX_DIM,
        1 <= s <= MAX_SCALE,
    ensures
        constrain_offset_axis_spec(
            cext,
            vext,
            s,
            clamp_spec(req, -OFF_BOUND as int, OFF_BOUND as int),
        ) == constrain_offset_axis_spec(cext, vext, s, req),
{
    lemma_scaled_extent_bounds(cext, s);
}

/// Clamping a requested scale into `[1, MAX_REQ_SCALE]` never changes the
/// constrained result: the scale constraint window lies inside that range.
pub proof fn lemma_scale_clamp_invisible(content: Size, viewport: Size, s: int)
    requires
        content.valid(),
        viewport.valid(),
        0 <= s,
    ensures
        constrain_scale_spec(content, viewport, clamp_spec(s, 1, MAX_REQ_SCALE as int))
            == constrain_scale_spec(content, viewport, s),
{
    lemma_fit_scale_range(content, viewport);
}

/// Constraining a transform is idempotent: the nearest in-bounds transform
/// to an already-constrained transform is that transform itself, exactly.
pub proof fn lemma_constrain_transform_idempotent(
    content: Size,
    viewport: Size,
    x: int,
    y: int,
    s: int,
)
    requires
        content.valid(),
        viewport.valid(),
    ensures
        ({
            let (x1, y1, s1) = constrain_transform_spec(content, viewport, x, y, s);
            constrain_transform_spec(content, viewport, x1, y1, s1) == (x1, y1, s1)
        }),
{
    lemma_fit_scale_range(content, viewport);
}

} // verus!
