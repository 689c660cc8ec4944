use zoom_image::anim::AnimState;
use zoom_image::ease::ease;
use zoom_image::fixed::{FP, TARGET_ANIM_LEN};
use zoom_image::geom::{Transform, Vec2};

fn trans(x: i64, y: i64, scale: i64) -> Transform {
    Transform { offset: Vec2 { x, y }, scale }
}

#[test]
fn ease_endpoints() {
    assert_eq!(ease(0), 0);
    assert_eq!(ease(FP), FP);
}

#[test]
fn ease_exact_values() {
    // 1 - (1 - 1/2)^3 == 7/8; 1 - (1 - 1/4)^3 == 37/64.
    assert_eq!(ease(500_000), 875_000);
    assert_eq!(ease(250_000), 578_125);
}

#[test]
fn ease_monotone_samples() {
    let mut prev: i64 = 0;
    let mut t: i64 = 0;
    while t <= FP {
        let e = ease(t);
        assert!(e >= prev);
        prev = e;
        t += 50_000;
    }
}

#[test]
fn anim_new_equal_transforms_is_complete() {
    let a = trans(0, 0, FP);
    let st = AnimState::new(a, a, TARGET_ANIM_LEN);
    assert_eq!(st.elapsed, TARGET_ANIM_LEN);
    assert!(st.is_complete());
}

#[test]
fn anim_new_distinct_transforms_starts_at_zero() {
    let st = AnimState::new(trans(0, 0, FP), trans(0, 0, 2 * FP), TARGET_ANIM_LEN);
    assert_eq!(st.elapsed, 0);
    assert_eq!(st.progress(), 0);
    assert!(!st.is_complete());
    // At progress zero the animation shows exactly its starting transform.
    assert_eq!(st.current(), trans(0, 0, FP));
}

#[test]
fn anim_update_progress_and_interpolation() {
    let from = trans(0, 0, FP);
    let to = trans(FP, 0, 2 * FP);
    let mut st = AnimState::new(from, to, TARGET_ANIM_LEN);
    st.update(TARGET_ANIM_LEN / 2);
    assert_eq!(st.progress(), 500_000);
    // Eased progress at half time is 7/8.
    let cur = st.current();
    assert_eq!(cur.offset.x, 875_000);
    assert_eq!(cur.offset.y, 0);
    assert_eq!(cur.scale, 1_875_000);
    assert!(!st.is_complete());
}

#[test]
fn anim_update_is_monotone_and_saturates() {
    let mut st = AnimState::new(trans(0, 0, FP), trans(FP, FP, 2 * FP), TARGET_ANIM_LEN);
    let mut prev: i64 = st.progress();
    for _ in 0..10 {
        st.update(30_000_000);
        let p = st.progress();
        assert!(p >= prev);
        assert!(p <= FP);
        prev = p;
    }
    assert_eq!(st.progress(), FP);
    assert!(st.is_complete());
    // Complete: the animation shows its target.
    assert_eq!(st.current(), trans(FP, FP, 2 * FP));
}

#[test]
fn anim_huge_elapsed_saturates() {
    let mut st = AnimState::new(trans(0, 0, FP), trans(FP, 0, FP), TARGET_ANIM_LEN);
    st.update(i64::MAX);
    assert_eq!(st.elapsed, TARGET_ANIM_LEN);
    assert_eq!(st.progress(), FP);
}

#[test]
fn anim_ticks_summing_to_duration_complete_it() {
    // Deltas that sum to the duration finish the animation, with no loss
    // to rounding: here three one-unit ticks against a three-unit duration.
    let mut st = AnimState::new(trans(0, 0, FP), trans(FP, 0, FP), 3);
    st.update(1);
    assert!(!st.is_complete());
    st.update(1);
    assert!(!st.is_complete());
    st.update(1);
    assert!(st.is_complete());
    assert_eq!(st.progress(), FP);
    assert_eq!(st.current(), trans(FP, 0, FP));
}
