use vstd::prelude::*;

verus! {

use vstd::arithmetic::div_mod::lemma_div_pos_is_pos;
use crate::fixed::{
    FP, MAX_REQ_SCALE, OFF_BOUND, TARGET_ANIM_LEN, WHEEL_IN_FACTOR, WHEEL_OUT_FACTOR, clamp_spec,
    min_spec, clamp64, clamp128, div_floor_i128, lemma_div_abs_bound, lemma_div_nonneg_le,
};
use crate::geom::{
    Vec2, Size, Transform, approx_eq_spec, approx_eq, lemma_approx_eq_is_eq, lemma_approx_eq_refl,
};
use crate::constrain::{
    fit_scale_spec, constrain_scale_spec, constrain_offset_axis_spec, constrain_transform_spec,
    fit_scale, constrain_scale, constrain_offset, constrain_transform, lemma_axis_clamp_invisible,
    lemma_scale_clamp_invisible,
};
use crate::anim::AnimState;

/// Bound on the magnitude of a committed transform offset. It leaves room
/// for a full pointer displacement before [`OFF_BOUND`], so a drag
/// candidate built on a committed transform is always representable.
pub const COMMIT_BOUND: i64 = 98_000_000_000_000;

/// A single-pointer drag in progress: the position where the pointer went
/// down and the live displacement since then. The displacement may push the
/// provisional transform outside the constraints; it is bounced back only
/// when the drag stops.
#[derive(Clone, Copy, Debug, PartialEq, Eq, Structural)]
pub struct Drag {
    /// The pointer position at the start of the drag.
    pub start: Vec2,
    /// The pointer displacement since the start.
    pub diff: Vec2,
}

impl Drag {
    /// A drag the engine is willing to hold.
    pub open spec fn valid(self) -> bool {
        &&& self.start.in_coord_range()
        &&& -2_000_000_000_000 <= self.diff.x <= 2_000_000_000_000
        &&& -2_000_000_000_000 <= self.diff.y <= 2_000_000_000_000
    }
}

/// The engine's interaction mode: exactly one of idle, dragging or
/// animating.
#[derive(Clone, Copy, Debug, PartialEq, Eq, Structural)]
pub enum Mode {
    /// No transient interaction.
    Normal,
    /// A pointer-down has occurred and not yet been released.
    Drag(Drag),
    /// A committed transition is in flight.
    Anim(AnimState),
}

/// What a mode may hold next to a given committed transform: an in-flight
/// animation always targets the committed transform, and outside a drag the
/// committed transform stays invertible.
pub open spec fn mode_valid(m: Mode, trans: Transform) -> bool {
    match m {
        Mode::Normal => trans.invertible(),
        Mode::Drag(d) => d.valid(),
        Mode::Anim(a) => a.valid() && a.to == trans && trans.invertible(),
    }
}

/// The pan/zoom engine: owns the committed content-to-viewport transform,
/// the interaction mode, the content and viewport sizes, and the one-time
/// fit-on-first-layout gate.
#[derive(Clone, Copy, Debug, PartialEq, Eq, Structural)]
pub struct ZoomImage {
    /// The committed transform, mapping content to viewport coordinates.
    pub trans: Transform,
    /// The current interaction mode.
    pub mode: Mode,
    /// Size of the displayed content.
    pub content: Size,
    /// Size of the viewport the content is shown in.
    pub viewport: Size,
    /// True until the first viewport size arrives; the first one triggers a
    /// fit to the viewport.
    pub fresh: bool,
}

/// An animation between two transforms, born complete when they already
/// agree within tolerance.
pub open spec fn anim_between_spec(from: Transform, to: Transform) -> AnimState {
    AnimState {
        from,
        to,
        elapsed: if approx_eq_spec(from, to) {
            TARGET_ANIM_LEN
        } else {
            0i64
        },
        len: TARGET_ANIM_LEN,
    }
}

/// The requested offset that keeps the content point now under `o` at `o`
/// after rescaling, on one axis: the content coordinate under `o` is
/// `(o - tx) / s0`, and the new offset is `o` minus that coordinate scaled
/// by `s1`.
pub open spec fn zoom_req_axis_spec(o: int, tx: int, s0: int, s1: int) -> int {
    let img = ((o - tx) * FP) / s0;
    o - (img * s1) / (FP as int)
}

/// The constrained transform a zoom request settles on: the requested scale
/// is constrained, the offset is recomputed so the content point currently
/// rendered under `origin` — by the effective transform, which is the live
/// drag or interpolated animation transform when one is in flight — stays
/// put, and the result is passed through the offset constraint.
pub open spec fn zoom_target_spec(pre: ZoomImage, scale: int, origin: Vec2) -> (int, int, int) {
    let eff = draw_transform_spec(pre);
    let s1 = constrain_scale_spec(pre.content, pre.viewport, scale);
    let rx = zoom_req_axis_spec(origin.x as int, eff.offset.x as int, eff.scale as int, s1);
    let ry = zoom_req_axis_spec(origin.y as int, eff.offset.y as int, eff.scale as int, s1);
    (
        constrain_offset_axis_spec(pre.content.width as int, pre.viewport.width as int, s1, rx),
        constrain_offset_axis_spec(pre.content.height as int, pre.viewport.height as int, s1, ry),
        s1,
    )
}

/// The mode after a zoom settles on `new_trans`: any in-flight drag or
/// animation ends. A result that agrees with the pre-request effective
/// transform within tolerance is committed with no animation and the engine
/// goes idle; otherwise an animation starts from the effective transform —
/// retargeting an in-flight animation from its currently interpolated
/// transform — so motion stays continuous.
pub open spec fn zoom_mode_spec(pre: ZoomImage, new_trans: Transform) -> Mode {
    if approx_eq_spec(new_trans, draw_transform_spec(pre)) {
        Mode::Normal
    } else {
        Mode::Anim(anim_between_spec(draw_transform_spec(pre), new_trans))
    }
}

/// Full description of a zoom request: the committed transform becomes the
/// constrained target and the mode follows [`zoom_mode_spec`]; sizes and
/// the first-layout gate are untouched.
pub open spec fn zoom_post(pre: ZoomImage, scale: int, origin: Vec2, post: ZoomImage) -> bool {
    let (x1, y1, s1) = zoom_target_spec(pre, scale, origin);
    &&& post.content == pre.content
    &&& post.viewport == pre.viewport
    &&& post.fresh == pre.fresh
    &&& post.trans.offset.x as int == x1
    &&& post.trans.offset.y as int == y1
    &&& post.trans.scale as int == s1
    &&& post.mode == zoom_mode_spec(pre, post.trans)
}

impl ZoomImage {
    /// The engine's internal invariant.
    pub open spec fn wf(self) -> bool {
        &&& self.content.valid()
        &&& self.viewport.valid()
        &&& self.trans.valid()
        &&& -COMMIT_BOUND <= self.trans.offset.x <= COMMIT_BOUND
        &&& -COMMIT_BOUND <= self.trans.offset.y <= COMMIT_BOUND
        &&& mode_valid(self.mode, self.trans)
    }

    /// A fresh engine for one displayed content instance: identity
    /// transform, idle, fit still pending.
    pub fn new(content: Size, viewport: Size) -> (r: ZoomImage)
        requires
            content.valid(),
            viewport.valid(),
        ensures
            r.wf(),
            r.trans == Transform::identity_spec(),
            r.mode == Mode::Normal,
            r.content == content,
            r.viewport == viewport,
            r.fresh == true,
    {
        proof {
            assert(0 * FP <= crate::fixed::INV_BOUND * FP) by (nonlinear_arith)
                requires
                    crate::fixed::INV_BOUND > 0,
                    FP > 0,
            ;
        }
        ZoomImage {
            trans: Transform::identity(),
            mode: Mode::Normal,
            content,
            viewport,
            fresh: true,
        }
    }

    /// Request a change of the zoom level to `scale`, keeping the content
    /// point rendered under `origin` (a viewport position) fixed, then
    /// constraining the result. Any in-flight drag or animation ends: if
    /// the constrained result differs beyond tolerance from the transform
    /// being rendered — the effective transform — an animation runs from
    /// that transform to the result, so motion stays continuous; otherwise
    /// the result is committed at once and the engine goes idle.
    pub fn zoom_to(&mut self, scale: i64, origin: Vec2)
        requires
            old(self).wf(),
            1 <= scale <= MAX_REQ_SCALE,
            origin.in_coord_range(),
        ensures
            final(self).wf(),
            final(self).trans.invertible(),
            zoom_post(*old(self), scale as int, origin, *final(self)),
    {
        let eff: Transform = self.draw_transform();
        let s1: i64 = constrain_scale(&self.content, &self.viewport, scale);
        proof {
            lemma_div_abs_bound(
                (origin.x as int - eff.offset.x as int) * FP,
                eff.scale as int,
                101_000_000_000_000_000_000,
            );
            lemma_div_abs_bound(
                (origin.y as int - eff.offset.y as int) * FP,
                eff.scale as int,
                101_000_000_000_000_000_000,
            );
        }
        let img_x: i128 = div_floor_i128(
            (origin.x as i128 - eff.offset.x as i128) * FP as i128,
            eff.scale as i128,
        );
        let img_y: i128 = div_floor_i128(
            (origin.y as i128 - eff.offset.y as i128) * FP as i128,
            eff.scale as i128,
        );
        proof {
            assert(-1_515_000_000_000_000_000_000_000_000 <= img_x as int * s1 as int
                <= 1_515_000_000_000_000_000_000_000_000 && -1_515_000_000_000_000_000_000_000_000
                <= img_y as int * s1 as int <= 1_515_000_000_000_000_000_000_000_000)
                by (nonlinear_arith)
                requires
                    -101_000_000_000_000_000_000 <= img_x as int <= 101_000_000_000_000_000_000,
                    -101_000_000_000_000_000_000 <= img_y as int <= 101_000_000_000_000_000_000,
                    1 <= s1 as int <= 15_000_000,
            ;
        }
        let sx: i128 = div_floor_i128(img_x * s1 as i128, FP as i128);
        let sy: i128 = div_floor_i128(img_y * s1 as i128, FP as i128);
        proof {
            lemma_div_abs_bound(
                img_x as int * s1 as int,
                FP as int,
                1_515_000_000_000_000_000_000_000_000,
            );
            lemma_div_abs_bound(
                img_y as int * s1 as int,
                FP as int,
                1_515_000_000_000_000_000_000_000_000,
            );
            lemma_axis_clamp_invisible(
                self.content.width as int,
                self.viewport.width as int,
                s1 as int,
                origin.x as int - (img_x as int * s1 as int) / (FP as int),
            );
            lemma_axis_clamp_invisible(
                self.content.height as int,
                self.viewport.height as int,
                s1 as int,
                origin.y as int - (img_y as int * s1 as int) / (FP as int),
            );
        }
        let rx: i64 = clamp128(origin.x as i128 - sx, -OFF_BOUND, OFF_BOUND);
        let ry: i64 = clamp128(origin.y as i128 - sy, -OFF_BOUND, OFF_BOUND);
        let off: Vec2 = constrain_offset(&self.content, &self.viewport, s1, Vec2 { x: rx, y: ry });
        self.trans = Transform { offset: off, scale: s1 };
        if !approx_eq(&self.trans, &eff) {
            self.mode = Mode::Anim(AnimState::new(eff, self.trans, TARGET_ANIM_LEN));
        } else {
            self.mode = Mode::Normal;
        }
    }

    /// Request a change of the zoom level by `factor` relative to the
    /// committed scale, zooming around `origin`. The fixed-point product is
    /// clamped into the representable request range before the absolute
    /// request; the clamp never changes the constrained outcome.
    pub fn zoom(&mut self, factor: i64, origin: Vec2)
        requires
            old(self).wf(),
            1 <= factor,
            origin.in_coord_range(),
        ensures
            final(self).wf(),
            final(self).trans.invertible(),
            zoom_post(
                *old(self),
                (old(self).trans.scale as int * factor) / (FP as int),
                origin,
                *final(self),
            ),
    {
        proof {
            assert(0 <= self.trans.scale as int * factor as int
                <= 150_000_000_000_000_000_000_000_000) by (nonlinear_arith)
                requires
                    1 <= self.trans.scale as int <= 15_000_000,
                    1 <= factor as int <= 10_000_000_000_000_000_000,
            ;
            lemma_div_pos_is_pos(self.trans.scale as int * factor, FP as int);
            lemma_scale_clamp_invisible(
                self.content,
                self.viewport,
                (self.trans.scale as int * factor) / (FP as int),
            );
        }
        let p: i128 = self.trans.scale as i128 * factor as i128;
        let ideal: i128 = p / (FP as i128);
        let req: i64 = clamp128(ideal, 1, MAX_REQ_SCALE);
        self.zoom_to(req, origin);
    }

    /// A wheel step maps to a relative zoom by a fixed ratio, zooming in
    /// for an upward scroll (negative delta), out for a downward one.
    pub fn wheel(&mut self, origin: Vec2, delta_y: i64)
        requires
            old(self).wf(),
            origin.in_coord_range(),
        ensures
            final(self).wf(),
            final(self).trans.invertible(),
            zoom_post(
                *old(self),
                (old(self).trans.scale as int * wheel_factor_spec(delta_y as int)) / (FP as int),
                origin,
                *final(self),
            ),
    {
        let f: i64 = if delta_y < 0 {
            WHEEL_IN_FACTOR
        } else if delta_y > 0 {
            WHEEL_OUT_FACTOR
        } else {
            FP
        };
        self.zoom(f, origin);
    }

    /// Request the fit-to-viewport scale, zooming around the viewport's
    /// top-left corner.
    pub fn zoom_to_fit(&mut self)
        requires
            old(self).wf(),
        ensures
            final(self).wf(),
            final(self).trans.invertible(),
            zoom_post(
                *old(self),
                fit_scale_spec(old(self).content, old(self).viewport),
                (Vec2 { x: 0i64, y: 0i64 }),
                *final(self),
            ),
    {
        let f: i64 = fit_scale(&self.content, &self.viewport);
        self.zoom_to(f, Vec2::zero());
    }

    /// Set the zoom to an absolute scale, zooming around the viewport
    /// center. A non-positive scale is the sentinel for "fit to viewport"
    /// and behaves exactly like [`ZoomImage::zoom_to_fit`].
    pub fn set_scale(&mut self, scale: i64)
        requires
            old(self).wf(),
        ensures
            final(self).wf(),
            final(self).trans.invertible(),
            scale <= 0 ==> zoom_post(
                *old(self),
                fit_scale_spec(old(self).content, old(self).viewport),
                (Vec2 { x: 0i64, y: 0i64 }),
                *final(self),
            ),
            scale > 0 ==> zoom_post(
                *old(self),
                scale as int,
                viewport_center_spec(old(self).viewport),
                *final(self),
            ),
    {
        if scale <= 0 {
            self.zoom_to_fit();
        } else {
            proof {
                lemma_scale_clamp_invisible(self.content, self.viewport, scale as int);
                lemma_div_nonneg_le(self.viewport.width as int, 2);
                lemma_div_nonneg_le(self.viewport.height as int, 2);
            }
            let req: i64 = clamp64(scale, 1, MAX_REQ_SCALE);
            let cx: i64 = self.viewport.width / 2;
            let cy: i64 = self.viewport.height / 2;
            self.zoom_to(req, Vec2 { x: cx, y: cy });
        }
    }

    /// Begin a drag at `pos`; ignored if a drag is already in progress. A
    /// pointer-down during an animation cancels it and drags from the
    /// transform it was showing at that moment (clamped into the committed
    /// range, which only matters at the extreme edge of the fixed-point
    /// range), so the view does not jump.
    pub fn drag_start(&mut self, pos: Vec2)
        requires
            old(self).wf(),
            pos.in_coord_range(),
        ensures
            final(self).wf(),
            final(self).content == old(self).content,
            final(self).viewport == old(self).viewport,
            final(self).fresh == old(self).fresh,
            match old(self).mode {
                Mode::Drag(_) => *final(self) == *old(self),
                Mode::Normal => final(self).trans == old(self).trans && final(self).mode
                    == Mode::Drag((Drag { start: pos, diff: (Vec2 { x: 0i64, y: 0i64 }) })),
                Mode::Anim(a) => final(self).trans == commit_clamp_spec(a.current_spec())
                    && final(self).mode == Mode::Drag(
                    (Drag { start: pos, diff: (Vec2 { x: 0i64, y: 0i64 }) }),
                ),
            },
    {
        match self.mode {
            Mode::Drag(_) => {},
            Mode::Normal => {
                self.mode = Mode::Drag(Drag { start: pos, diff: Vec2::zero() });
            },
            Mode::Anim(a) => {
                let cur: Transform = a.current();
                let cx: i64 = clamp64(cur.offset.x, -COMMIT_BOUND, COMMIT_BOUND);
                let cy: i64 = clamp64(cur.offset.y, -COMMIT_BOUND, COMMIT_BOUND);
                self.trans = Transform { offset: Vec2 { x: cx, y: cy }, scale: cur.scale };
                self.mode = Mode::Drag(Drag { start: pos, diff: Vec2::zero() });
            },
        }
    }

    /// Update the live drag displacement; does nothing outside a drag.
    /// Returns whether the provisional transform changed, so the caller
    /// knows to redraw.
    pub fn drag_move(&mut self, pos: Vec2) -> (r: bool)
        requires
            old(self).wf(),
            pos.in_coord_range(),
        ensures
            final(self).wf(),
            match old(self).mode {
                Mode::Drag(d) => *final(self) == (ZoomImage {
                    mode: Mode::Drag(
                        (Drag {
                            start: d.start,
                            diff: (Vec2 {
                                x: (pos.x - d.start.x) as i64,
                                y: (pos.y - d.start.y) as i64,
                            }),
                        }),
                    ),
                    ..*old(self)
                }) && r == true,
                _ => *final(self) == *old(self) && r == false,
            },
    {
        match self.mode {
            Mode::Drag(d) => {
                self.mode = Mode::Drag(
                    Drag { start: d.start, diff: Vec2 { x: pos.x - d.start.x, y: pos.y - d.start.y } },
                );
                true
            },
            _ => false,
        }
    }

    /// Finish a drag: the committed transform becomes the constrained
    /// version of the provisional one; if constraining moved it, a
    /// bounce-back animation runs from the provisional transform and the
    /// caller is told to request an animation frame.
    pub fn drag_stop(&mut self) -> (r: bool)
        requires
            old(self).wf(),
        ensures
            final(self).wf(),
            drag_stop_post(*old(self), *final(self), r),
    {
        match self.mode {
            Mode::Drag(d) => {
                let cand: Transform = Transform {
                    offset: Vec2 {
                        x: self.trans.offset.x + d.diff.x,
                        y: self.trans.offset.y + d.diff.y,
                    },
                    scale: self.trans.scale,
                };
                let newt: Transform = constrain_transform(&self.content, &self.viewport, &cand);
                self.trans = newt;
                if approx_eq(&newt, &cand) {
                    self.mode = Mode::Normal;
                    proof {
                        lemma_approx_eq_is_eq(newt, cand);
                    }
                    false
                } else {
                    self.mode = Mode::Anim(AnimState::new(cand, newt, TARGET_ANIM_LEN));
                    true
                }
            },
            _ => false,
        }
    }

    /// Advance an in-flight animation by an elapsed time. The animation is
    /// complete as soon as the summed elapsed times reach its duration, so
    /// it never outlives its wall-time bound; the engine then returns to
    /// idle (the committed transform already equals the animation's
    /// target). Otherwise the caller is told to request the next frame.
    pub fn tick(&mut self, elapsed: i64) -> (r: bool)
        requires
            old(self).wf(),
            0 <= elapsed,
        ensures
            final(self).wf(),
            final(self).trans == old(self).trans,
            final(self).content == old(self).content,
            final(self).viewport == old(self).viewport,
            final(self).fresh == old(self).fresh,
            match old(self).mode {
                Mode::Anim(a) => ({
                    let e2 = min_spec(a.len as int, a.elapsed + elapsed);
                    if e2 >= a.len {
                        final(self).mode == Mode::Normal && r == false
                    } else {
                        final(self).mode == Mode::Anim((AnimState { elapsed: e2 as i64, ..a }))
                            && r == true
                    }
                }),
                _ => *final(self) == *old(self) && r == false,
            },
    {
        match self.mode {
            Mode::Anim(a) => {
                let mut a2: AnimState = a;
                a2.update(elapsed);
                if a2.is_complete() {
                    self.mode = Mode::Normal;
                    false
                } else {
                    self.mode = Mode::Anim(a2);
                    true
                }
            },
            _ => false,
        }
    }

    /// The transform to render right now: the provisional drag transform,
    /// the interpolated animation transform, or the committed transform,
    /// depending on mode.
    pub fn draw_transform(&self) -> (r: Transform)
        requires
            self.wf(),
        ensures
            r == draw_transform_spec(*self),
            r.valid(),
    {
        match self.mode {
            Mode::Normal => self.trans,
            Mode::Drag(d) => Transform {
                offset: Vec2 {
                    x: self.trans.offset.x + d.diff.x,
                    y: self.trans.offset.y + d.diff.y,
                },
                scale: self.trans.scale,
            },
            Mode::Anim(a) => a.current(),
        }
    }

    /// Whether a drag is in progress.
    pub fn is_dragging(&self) -> (r: bool)
        ensures
            r == (self.mode is Drag),
    {
        match self.mode {
            Mode::Drag(_) => true,
            _ => false,
        }
    }

    /// Whether an animation is in flight.
    pub fn is_animating(&self) -> (r: bool)
        ensures
            r == (self.mode is Anim),
    {
        match self.mode {
            Mode::Anim(_) => true,
            _ => false,
        }
    }

    /// The committed transform.
    pub fn transform(&self) -> (r: Transform)
        ensures
            r == self.trans,
    {
        self.trans
    }

    /// Whether the effective transform's inverse is representable, so
    /// [`ZoomImage::notify_transform`] may be called. It always is while
    /// idle; a live drag or a bounce-back in flight can, at the far edge of
    /// the fixed-point range, displace the view beyond it.
    pub fn can_notify(&self) -> (r: bool)
        requires
            self.wf(),
        ensures
            r == draw_transform_spec(*self).invertible(),
    {
        let eff: Transform = self.draw_transform();
        eff.is_invertible()
    }

    /// The inverse of the effective transform — the one being rendered —
    /// mapping viewport back to content coordinates: the payload of a
    /// change notification.
    pub fn notify_transform(&self) -> (r: Transform)
        requires
            self.wf(),
            draw_transform_spec(*self).invertible(),
        ensures
            r.scale as int == draw_transform_spec(*self).inv_scale_spec(),
            r.offset.x as int == draw_transform_spec(*self).inv_x_spec(),
            r.offset.y as int == draw_transform_spec(*self).inv_y_spec(),
    {
        let eff: Transform = self.draw_transform();
        eff.inverse()
    }

    /// The viewport was resized. The first usable size fits the content to
    /// the viewport; later sizes re-constrain the committed transform
    /// instantly, with no animation. Either way any in-flight drag or
    /// animation is cancelled.
    pub fn viewport_resized(&mut self, new: Size)
        requires
            old(self).wf(),
            new.valid(),
        ensures
            final(self).wf(),
            final(self).viewport == new,
            final(self).content == old(self).content,
            final(self).fresh == false,
            final(self).mode == Mode::Normal,
            old(self).fresh ==> ({
                let (x1, y1, s1) = zoom_target_spec(
                    (ZoomImage { viewport: new, fresh: false, ..*old(self) }),
                    fit_scale_spec(old(self).content, new),
                    (Vec2 { x: 0i64, y: 0i64 }),
                );
                final(self).trans.offset.x as int == x1 && final(self).trans.offset.y as int == y1
                    && final(self).trans.scale as int == s1
            }),
            !old(self).fresh ==> ({
                let (x1, y1, s1) = constrain_transform_spec(
                    old(self).content,
                    new,
                    old(self).trans.offset.x as int,
                    old(self).trans.offset.y as int,
                    old(self).trans.scale as int,
                );
                final(self).trans.offset.x as int == x1 && final(self).trans.offset.y as int == y1
                    && final(self).trans.scale as int == s1
            }),
    {
        self.viewport = new;
        if self.fresh {
            self.fresh = false;
            self.zoom_to_fit();
        } else {
            let t: Transform = constrain_transform(&self.content, &self.viewport, &self.trans);
            self.trans = t;
        }
        self.mode = Mode::Normal;
    }

    /// The displayed content was replaced: remember its size and re-fit it
    /// to the viewport.
    pub fn content_replaced(&mut self, new: Size)
        requires
            old(self).wf(),
            new.valid(),
        ensures
            final(self).wf(),
            final(self).trans.invertible(),
            final(self).content == new,
            final(self).viewport == old(self).viewport,
            final(self).fresh == old(self).fresh,
            zoom_post(
                (ZoomImage { content: new, ..*old(self) }),
                fit_scale_spec(new, old(self).viewport),
                (Vec2 { x: 0i64, y: 0i64 }),
                *final(self),
            ),
    {
        self.content = new;
        self.zoom_to_fit();
    }
}

/// The transform to render for a given engine state.
pub open spec fn draw_transform_spec(e: ZoomImage) -> Transform {
    match e.mode {
        Mode::Normal => e.trans,
        Mode::Drag(d) => drag_candidate_spec(e.trans, d),
        Mode::Anim(a) => a.current_spec(),
    }
}

/// The provisional transform of a drag: the committed offset shifted by the
/// live displacement, at the committed scale.
pub open spec fn drag_candidate_spec(trans: Transform, d: Drag) -> Transform {
    Transform {
        offset: Vec2 {
            x: (trans.offset.x + d.diff.x) as i64,
            y: (trans.offset.y + d.diff.y) as i64,
        },
        scale: trans.scale,
    }
}

/// A transform with its offsets clamped into the committed range; the
/// clamp is the identity everywhere but at the extreme edge of the
/// fixed-point range.
pub open spec fn commit_clamp_spec(t: Transform) -> Transform {
    Transform {
        offset: Vec2 {
            x: clamp_spec(t.offset.x as int, -COMMIT_BOUND as int, COMMIT_BOUND as int) as i64,
            y: clamp_spec(t.offset.y as int, -COMMIT_BOUND as int, COMMIT_BOUND as int) as i64,
        },
        scale: t.scale,
    }
}

/// The viewport's center point.
pub open spec fn viewport_center_spec(v: Size) -> Vec2 {
    Vec2 { x: ((v.width as int) / 2) as i64, y: ((v.height as int) / 2) as i64 }
}

/// The relative zoom factor of one wheel step: in for an upward scroll,
/// out for a downward one, none for a zero delta.
pub open spec fn wheel_factor_spec(delta_y: int) -> int {
    if delta_y < 0 {
        WHEEL_IN_FACTOR as int
    } else if delta_y > 0 {
        WHEEL_OUT_FACTOR as int
    } else {
        FP as int
    }
}

/// Full description of finishing a drag: the committed transform becomes
/// the constrained provisional transform; if constraining moved it beyond
/// tolerance, a bounce-back animation starts from the provisional
/// transform, else the engine goes idle. Outside a drag nothing happens.
pub open spec fn drag_stop_post(pre: ZoomImage, post: ZoomImage, r: bool) -> bool {
    match pre.mode {
        Mode::Drag(d) => {
            let cand = drag_candidate_spec(pre.trans, d);
            let (x1, y1, s1) = constrain_transform_spec(
                pre.content,
                pre.viewport,
                cand.offset.x as int,
                cand.offset.y as int,
                cand.scale as int,
            );
            &&& post.content == pre.content
            &&& post.viewport == pre.viewport
            &&& post.fresh == pre.fresh
            &&& post.trans.offset.x as int == x1
            &&& post.trans.offset.y as int == y1
            &&& post.trans.scale as int == s1
            &&& if approx_eq_spec(post.trans, cand) {
                post.mode == Mode::Normal && r == false
            } else {
                post.mode == Mode::Anim(anim_between_spec(cand, post.trans)) && r == true
            }
        },
        _ => post == pre && r == false,
    }
}

/// Finishing a drag whose net pointer displacement is zero leaves an
/// in-constraint committed transform unchanged and does not start a
/// bounce-back animation.
pub proof fn lemma_drag_stop_zero_displacement(pre: ZoomImage, post: ZoomImage, r: bool, d: Drag)
    requires
        pre.wf(),
        pre.mode == Mode::Drag(d),
        d.diff.x == 0,
        d.diff.y == 0,
        constrain_transform_spec(
            pre.content,
            pre.viewport,
            pre.trans.offset.x as int,
            pre.trans.offset.y as int,
            pre.trans.scale as int,
        ) == (pre.trans.offset.x as int, pre.trans.offset.y as int, pre.trans.scale as int),
        drag_stop_post(pre, post, r),
    ensures
        post.trans == pre.trans,
        post.mode == Mode::Normal,
        r == false,
{
    assert(drag_candidate_spec(pre.trans, d) == pre.trans);
    assert(post.trans == pre.trans);
    lemma_approx_eq_refl(post.trans);
}

} // verus!

