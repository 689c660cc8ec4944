use zoom_image::engine::{Mode, ZoomImage};
use zoom_image::fixed::FP;
use zoom_image::geom::{Size, Transform, Vec2};

fn px(n: i64) -> i64 {
    n * FP
}

fn size(w: i64, h: i64) -> Size {
    Size { width: px(w), height: px(h) }
}

fn point(x: i64, y: i64) -> Vec2 {
    Vec2 { x: px(x), y: px(y) }
}

fn trans(x: i64, y: i64, scale: i64) -> Transform {
    Transform { offset: Vec2 { x, y }, scale }
}

#[test]
fn fit_wide_content_scales_and_centers() {
    // Content 200x100 in a 100x100 viewport: fit scale 1/2; the width fills
    // the viewport exactly, the height is centered at y = 25 px.
    let mut e = ZoomImage::new(size(200, 100), size(100, 100));
    e.zoom_to_fit();
    assert_eq!(e.transform(), trans(0, px(25), 500_000));
    assert!(e.is_animating());
}

#[test]
fn zoom_by_factor_keeps_origin_point_fixed() {
    // Committed identity, content 100x100, viewport 50x50; doubling around
    // the viewport's top-left keeps content (0,0) under viewport (0,0).
    let mut e = ZoomImage::new(size(100, 100), size(50, 50));
    e.zoom(2 * FP, point(0, 0));
    assert_eq!(e.transform(), trans(0, 0, 2 * FP));
}

#[test]
fn set_scale_sentinel_means_fit() {
    let content = size(200, 100);
    let viewport = size(100, 100);
    let mut a = ZoomImage::new(content, viewport);
    let mut b = ZoomImage::new(content, viewport);
    a.set_scale(0);
    b.zoom_to_fit();
    assert_eq!(a, b);
    a.set_scale(-5 * FP);
    assert_eq!(a.transform(), b.transform());
}

#[test]
fn set_scale_zooms_around_viewport_center() {
    let mut e = ZoomImage::new(size(100, 100), size(100, 100));
    e.zoom_to_fit();
    assert_eq!(e.transform(), trans(0, 0, FP));
    assert!(!e.is_animating());
    e.set_scale(2 * FP);
    // The content point under the center (50,50) stays there: offset -50 px.
    assert_eq!(e.transform(), trans(px(-50), px(-50), 2 * FP));
    assert!(e.is_animating());
}

#[test]
fn fit_of_already_fitting_content_does_not_animate() {
    let mut e = ZoomImage::new(size(100, 100), size(100, 100));
    e.zoom_to_fit();
    assert_eq!(e.transform(), trans(0, 0, FP));
    assert!(!e.is_animating());
    assert!(matches!(e.mode, Mode::Normal));
}

#[test]
fn wheel_scroll_down_zooms_out() {
    let mut e = ZoomImage::new(size(100, 100), size(100, 100));
    e.zoom_to_fit();
    e.wheel(point(50, 50), 1);
    // Scale becomes e^(-1/2); the smaller content is centered.
    let t = e.transform();
    assert_eq!(t.scale, 606_531);
    assert_eq!(t.offset.x, 19_673_450);
    assert_eq!(t.offset.y, 19_673_450);
}

#[test]
fn wheel_zero_delta_changes_nothing() {
    let mut e = ZoomImage::new(size(100, 100), size(100, 100));
    e.zoom_to_fit();
    let before = e.transform();
    e.wheel(point(10, 10), 0);
    assert_eq!(e.transform(), before);
    assert!(!e.is_animating());
}

#[test]
fn retargeting_mid_flight_is_continuous() {
    let mut e = ZoomImage::new(size(100, 100), size(100, 100));
    e.zoom_to_fit();
    e.wheel(point(50, 50), 1);
    assert!(e.is_animating());
    // Advance half-way, note what is on screen, then retarget.
    assert!(e.tick(80_000_000));
    let shown = e.draw_transform();
    e.wheel(point(25, 25), -1);
    match e.mode {
        Mode::Anim(a) => {
            assert_eq!(a.from, shown);
            assert_eq!(a.to, e.transform());
            assert_eq!(a.elapsed, 0);
            // The retargeted animation starts exactly where the old one was.
            assert_eq!(a.current(), shown);
        }
        _ => panic!("expected an animation after a retargeting zoom"),
    }
}

#[test]
fn tick_completes_and_goes_idle() {
    let mut e = ZoomImage::new(size(100, 100), size(100, 100));
    e.zoom_to_fit();
    e.wheel(point(50, 50), 1);
    let committed = e.transform();
    assert!(e.tick(80_000_000));
    assert!(e.is_animating());
    assert!(!e.tick(80_000_000));
    assert!(matches!(e.mode, Mode::Normal));
    // Completion commits the target, which was already the committed value.
    assert_eq!(e.transform(), committed);
}

#[test]
fn zoom_during_drag_ends_the_drag() {
    let mut e = ZoomImage::new(size(100, 100), size(100, 100));
    e.zoom_to_fit();
    e.drag_start(point(10, 10));
    e.drag_move(point(30, 15));
    let provisional = e.draw_transform();
    e.zoom(2 * FP, point(0, 0));
    // A zoom request exits the drag and animates from the provisional
    // transform to the constrained result.
    assert!(!e.is_dragging());
    assert!(e.is_animating());
    assert_eq!(e.transform(), trans(0, 0, 2 * FP));
    match e.mode {
        Mode::Anim(a) => {
            assert_eq!(a.from, provisional);
            assert_eq!(a.to, trans(0, 0, 2 * FP));
        }
        _ => panic!("expected an animation after a zoom during a drag"),
    }
}

#[test]
fn zoom_to_same_target_mid_animation_restarts_from_shown() {
    let mut e = ZoomImage::new(size(100, 100), size(100, 100));
    e.zoom_to_fit();
    e.wheel(point(50, 50), 1);
    let committed = e.transform();
    e.tick(80_000_000);
    let shown = e.draw_transform();
    // At this scale the content is centered whatever is requested, so this
    // zoom settles on exactly the committed transform — yet it must not
    // leave the half-elapsed animation in flight: the comparison is
    // against what is shown, and a fresh animation starts there.
    e.zoom_to(committed.scale, point(0, 0));
    assert_eq!(e.transform(), committed);
    match e.mode {
        Mode::Anim(a) => {
            assert_eq!(a.from, shown);
            assert_eq!(a.to, committed);
            assert_eq!(a.elapsed, 0);
        }
        _ => panic!("expected a fresh animation toward the unchanged target"),
    }
}

#[test]
fn engine_ticks_summing_to_duration_go_idle() {
    let mut e = ZoomImage::new(size(100, 100), size(100, 100));
    e.zoom_to_fit();
    e.wheel(point(50, 50), 1);
    // 50 + 50 + 60 ms reach the 160 ms duration exactly: the engine stops
    // requesting frames and is idle.
    assert!(e.tick(50_000_000));
    assert!(e.tick(50_000_000));
    assert!(!e.tick(60_000_000));
    assert!(matches!(e.mode, Mode::Normal));
}

#[test]
fn drag_moves_provisional_transform_only() {
    let mut e = ZoomImage::new(size(100, 100), size(100, 100));
    e.zoom_to_fit();
    e.drag_start(point(10, 10));
    assert!(e.is_dragging());
    assert!(e.drag_move(point(30, 15)));
    // The provisional transform carries the displacement; the committed one
    // does not.
    assert_eq!(e.draw_transform(), trans(px(20), px(5), FP));
    assert_eq!(e.transform(), trans(0, 0, FP));
}

#[test]
fn drag_stop_bounces_back_when_out_of_bounds() {
    let mut e = ZoomImage::new(size(100, 100), size(100, 100));
    e.zoom_to_fit();
    e.drag_start(point(10, 10));
    e.drag_move(point(30, 15));
    // The candidate (20,5) is outside the constraint window [0,0]x[0,0].
    assert!(e.drag_stop());
    assert_eq!(e.transform(), trans(0, 0, FP));
    match e.mode {
        Mode::Anim(a) => {
            assert_eq!(a.from, trans(px(20), px(5), FP));
            assert_eq!(a.to, trans(0, 0, FP));
        }
        _ => panic!("expected a bounce-back animation"),
    }
}

#[test]
fn drag_stop_without_displacement_commits_nothing() {
    let mut e = ZoomImage::new(size(100, 100), size(100, 100));
    e.zoom_to_fit();
    let before = e.transform();
    e.drag_start(point(40, 40));
    assert!(!e.drag_stop());
    assert_eq!(e.transform(), before);
    assert!(matches!(e.mode, Mode::Normal));
}

#[test]
fn drag_start_is_ignored_while_dragging() {
    let mut e = ZoomImage::new(size(100, 100), size(100, 100));
    e.zoom_to_fit();
    e.drag_start(point(10, 10));
    e.drag_move(point(20, 20));
    e.drag_start(point(90, 90));
    match e.mode {
        Mode::Drag(d) => {
            assert_eq!(d.start, Vec2 { x: px(10), y: px(10) });
            assert_eq!(d.diff, Vec2 { x: px(10), y: px(10) });
        }
        _ => panic!("expected the first drag to continue"),
    }
}

#[test]
fn drag_start_mid_animation_commits_shown_transform() {
    let mut e = ZoomImage::new(size(100, 100), size(100, 100));
    e.zoom_to_fit();
    e.wheel(point(50, 50), 1);
    e.tick(80_000_000);
    let shown = e.draw_transform();
    e.drag_start(point(50, 50));
    assert!(e.is_dragging());
    // The drag proceeds from what was on screen: no jump.
    assert_eq!(e.transform(), shown);
    assert_eq!(e.draw_transform(), shown);
}

#[test]
fn first_viewport_size_fits_content() {
    let mut e = ZoomImage::new(size(200, 100), size(10, 10));
    e.viewport_resized(size(100, 100));
    assert_eq!(e.transform(), trans(0, px(25), 500_000));
    assert!(matches!(e.mode, Mode::Normal));
    assert!(!e.fresh);
}

#[test]
fn later_resize_constrains_without_animating() {
    let mut e = ZoomImage::new(size(200, 100), size(10, 10));
    e.viewport_resized(size(100, 100));
    e.viewport_resized(size(50, 50));
    // Scale 1/2 still allowed (fit would be 1/4, the floor is below); the
    // 100x50 px scaled content overflows in x (clamped) and matches in y.
    assert_eq!(e.transform(), trans(0, 0, 500_000));
    assert!(matches!(e.mode, Mode::Normal));
}

#[test]
fn resize_cancels_a_drag() {
    let mut e = ZoomImage::new(size(100, 100), size(10, 10));
    e.viewport_resized(size(100, 100));
    e.drag_start(point(10, 10));
    e.drag_move(point(20, 20));
    e.viewport_resized(size(80, 80));
    assert!(!e.is_dragging());
    assert!(matches!(e.mode, Mode::Normal));
}

#[test]
fn content_replaced_refits() {
    let mut e = ZoomImage::new(size(100, 100), size(100, 100));
    e.zoom_to_fit();
    e.content_replaced(size(200, 100));
    assert_eq!(e.content, size(200, 100));
    assert_eq!(e.transform(), trans(0, px(25), 500_000));
    assert!(e.is_animating());
}

#[test]
fn notify_transform_is_the_effective_inverse() {
    let mut e = ZoomImage::new(size(200, 100), size(100, 100));
    e.zoom_to_fit();
    // The fit has only just started animating: what is rendered is still
    // the identity, and the notification payload is its inverse.
    assert!(e.can_notify());
    assert_eq!(e.notify_transform(), trans(0, 0, FP));
    // Once the animation completes, the effective transform is the
    // committed (0, 25 px, 1/2), whose inverse has scale 2, offset
    // (0, -50 px).
    e.tick(160_000_000);
    assert_eq!(e.notify_transform(), trans(0, px(-50), 2 * FP));
}

#[test]
fn zoom_request_is_clamped_into_bounds() {
    let mut e = ZoomImage::new(size(100, 100), size(100, 100));
    e.zoom_to_fit();
    e.set_scale(i64::MAX);
    assert_eq!(e.transform().scale, 15 * FP);
    e.set_scale(1);
    // Far below every bound: the floor MIN_SCALE wins.
    assert_eq!(e.transform().scale, 200_000);
}
