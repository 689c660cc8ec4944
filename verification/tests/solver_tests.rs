use zoom_image::constrain::{constrain_offset, constrain_scale, constrain_transform, fit_scale};
use zoom_image::fixed::{FP, MAX_SCALE, MIN_SCALE};
use zoom_image::geom::{Size, Transform, Vec2};

fn px(n: i64) -> i64 {
    n * FP
}

fn size(w: i64, h: i64) -> Size {
    Size { width: px(w), height: px(h) }
}

#[test]
fn fit_scale_wide_content() {
    // Content twice as wide as the viewport: the width governs the fit.
    let f = fit_scale(&size(200, 100), &size(100, 100));
    assert_eq!(f, 500_000);
}

#[test]
fn fit_scale_exact_match() {
    let f = fit_scale(&size(100, 100), &size(100, 100));
    assert_eq!(f, FP);
}

#[test]
fn constrain_scale_clamps_above() {
    // Requested far beyond the maximum comes back at the maximum.
    let s = constrain_scale(&size(100, 100), &size(100, 100), 1_000_000_000);
    assert_eq!(s, MAX_SCALE);
}

#[test]
fn constrain_scale_clamps_below_to_floor() {
    // Small content: the floor is MIN_SCALE, not the (larger) fit scale.
    let s = constrain_scale(&size(100, 100), &size(100, 100), 1);
    assert_eq!(s, MIN_SCALE);
}

#[test]
fn constrain_scale_large_content_may_fit() {
    // Content five times the viewport: the fit scale (0.2 == MIN_SCALE
    // here) still bounds from below; ten times: fit scale 0.1 governs.
    let s = constrain_scale(&size(1000, 1000), &size(100, 100), 1);
    assert_eq!(s, 100_000);
}

#[test]
fn constrain_offset_centers_small_content() {
    // 50 px content in a 100 px viewport at scale 1: centered exactly at
    // half the slack on both axes.
    let off = constrain_offset(
        &size(50, 50),
        &size(100, 100),
        FP,
        Vec2 { x: px(999), y: px(-999) },
    );
    assert_eq!(off.x, px(25));
    assert_eq!(off.y, px(25));
}

#[test]
fn constrain_offset_clamps_large_content() {
    // 200 px content in a 100 px viewport at scale 1: slack is -100 px,
    // offsets are clamped into [-100 px, 0].
    let c = size(200, 200);
    let v = size(100, 100);
    let low = constrain_offset(&c, &v, FP, Vec2 { x: px(-150), y: px(-150) });
    assert_eq!(low.x, px(-100));
    assert_eq!(low.y, px(-100));
    let high = constrain_offset(&c, &v, FP, Vec2 { x: px(50), y: px(50) });
    assert_eq!(high.x, 0);
    assert_eq!(high.y, 0);
}

#[test]
fn constrain_transform_is_idempotent_on_values() {
    let c = size(200, 100);
    let v = size(100, 100);
    let wild = Transform { offset: Vec2 { x: px(77), y: px(-312) }, scale: 9_000_000 };
    let once = constrain_transform(&c, &v, &wild);
    let twice = constrain_transform(&c, &v, &once);
    assert_eq!(once, twice);
}
