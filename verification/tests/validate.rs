use convertoid::emote::{
    ANIMATED_MAX_TOTAL_DURATION_MS, ANIMATED_MIN_FRAME_DURATION_MS, StickerPolicy,
    ValidationError, validate_durations,
};
use convertoid::webp::WebpInfo;

fn info(durations: Vec<i32>) -> WebpInfo {
    WebpInfo { durations, size: (512, 512) }
}

#[test]
fn a_too_short_frame_is_reported() {
    let r = validate_durations(&info(vec![5, 20, 20]), 8, 10000);
    assert_eq!(r.unwrap_err(), ValidationError::TooShortFrames);
}

#[test]
fn an_excessive_total_is_reported() {
    let r = validate_durations(&info(vec![5000, 5000, 50]), 8, 10000);
    assert_eq!(r.unwrap_err(), ValidationError::ExceedsMaxDuration);
}

#[test]
fn the_total_bound_is_inclusive() {
    let r = validate_durations(&info(vec![5000, 4000, 1000]), 8, 10000);
    assert!(r.is_ok());
}

#[test]
fn a_static_image_always_passes() {
    assert!(validate_durations(&info(vec![]), 8, 10000).is_ok());
}

#[test]
fn short_frames_are_reported_before_the_total() {
    let r = validate_durations(&info(vec![5, 9000, 9000]), 8, 10000);
    assert_eq!(r.unwrap_err(), ValidationError::TooShortFrames);
}

#[test]
fn the_minimum_frame_bound_is_inclusive() {
    assert!(validate_durations(&info(vec![8, 8]), 8, 10000).is_ok());
}

#[test]
fn the_default_policy_carries_the_sticker_limits() {
    let p = StickerPolicy::default();
    assert_eq!(p.min_frame_duration_ms, ANIMATED_MIN_FRAME_DURATION_MS);
    assert_eq!(p.min_frame_duration_ms, 8);
    assert_eq!(p.max_total_duration_ms, ANIMATED_MAX_TOTAL_DURATION_MS);
    assert_eq!(p.max_total_duration_ms, 10000);
    assert_eq!(p.animated_size_limit, 500 * 1024);
    assert_eq!(p.static_size_limit, 100 * 1024);
}
