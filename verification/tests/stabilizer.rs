use unvet::stabilizer::{TrackingFrameStabilizer, MAX_HOLD_FRAMES};

/// The four primary angles of a tracking frame, in degrees: eye yaw, eye
/// pitch, head yaw, head pitch.
#[derive(Debug, Clone, Copy, PartialEq)]
struct Frame {
    eye_yaw: f32,
    eye_pitch: f32,
    head_yaw: f32,
    head_pitch: f32,
}

fn make_frame(eye_yaw: f32, eye_pitch: f32, head_yaw: f32, head_pitch: f32) -> Frame {
    Frame { eye_yaw, eye_pitch, head_yaw, head_pitch }
}

/// A frame is an origin spike when all primary angles are within 2 degrees
/// of zero and one of them jumped by at least 10 degrees.
fn is_origin_spike(last: Frame, current: Frame) -> bool {
    let near = current.eye_yaw.abs() < 2.0
        && current.eye_pitch.abs() < 2.0
        && current.head_yaw.abs() < 2.0
        && current.head_pitch.abs() < 2.0;
    if !near {
        return false;
    }
    let delta = (current.eye_yaw - last.eye_yaw)
        .abs()
        .max((current.eye_pitch - last.eye_pitch).abs())
        .max((current.head_yaw - last.head_yaw).abs())
        .max((current.head_pitch - last.head_pitch).abs());
    delta >= 10.0
}

fn feed(stabilizer: &mut TrackingFrameStabilizer<Frame>, frame: Frame) -> Frame {
    let spike = match stabilizer.last_good() {
        Some(last) => is_origin_spike(last, frame),
        None => false,
    };
    stabilizer.update(frame, spike)
}

#[test]
fn disabled_passes_all_frames_through() {
    let mut stabilizer = TrackingFrameStabilizer::new(false);
    let origin = make_frame(0.0, 0.0, 0.0, 0.0);
    let frame = feed(&mut stabilizer, origin);
    assert_eq!(frame, origin);
}

#[test]
fn first_frame_always_passes_through() {
    let mut stabilizer = TrackingFrameStabilizer::new(true);
    let frame = make_frame(0.0, 0.0, 0.0, 0.0);
    let out = feed(&mut stabilizer, frame);
    assert_eq!(out, frame);
}

#[test]
fn non_spike_frame_passes_through() {
    let mut stabilizer = TrackingFrameStabilizer::new(true);
    let _ = feed(&mut stabilizer, make_frame(15.0, 5.0, 10.0, 2.0));
    let next = make_frame(13.0, 4.0, 9.0, 1.5);
    let out = feed(&mut stabilizer, next);
    assert_eq!(out, next);
}

#[test]
fn origin_spike_is_replaced_with_last_good_frame() {
    let mut stabilizer = TrackingFrameStabilizer::new(true);
    let good = make_frame(20.0, 8.0, 12.0, 3.0);
    let _ = feed(&mut stabilizer, good);

    let spike = make_frame(0.0, 0.0, 0.0, 0.0);
    let out = feed(&mut stabilizer, spike);
    assert_eq!(out, good, "spike frame should be replaced by last good frame");
}

#[test]
fn near_origin_large_jump_is_suppressed() {
    let mut stabilizer = TrackingFrameStabilizer::new(true);
    let _ = feed(&mut stabilizer, make_frame(15.0, 0.0, 0.0, 0.0));

    let spike = make_frame(0.0, 0.0, 0.0, 0.0);
    let out = feed(&mut stabilizer, spike);
    assert!((out.eye_yaw - 15.0).abs() < 0.001, "spike should be held");
}

#[test]
fn small_drift_to_origin_is_not_suppressed() {
    let mut stabilizer = TrackingFrameStabilizer::new(true);
    let _ = feed(&mut stabilizer, make_frame(1.5, 0.5, 0.8, 0.2));
    let near_zero = make_frame(0.5, 0.3, 0.4, 0.1);
    let out = feed(&mut stabilizer, near_zero);
    assert_eq!(out, near_zero, "small drift should not be suppressed");
}

#[test]
fn hold_count_resets_after_max_hold_frames() {
    let mut stabilizer = TrackingFrameStabilizer::new(true);
    let good = make_frame(20.0, 10.0, 5.0, 2.0);
    let _ = feed(&mut stabilizer, good);

    let spike = make_frame(0.0, 0.0, 0.0, 0.0);
    for _ in 0..5 {
        feed(&mut stabilizer, spike);
    }
    let accepted = feed(&mut stabilizer, spike);
    assert_eq!(accepted, spike, "frame must be accepted after max hold reached");
}

#[test]
fn non_origin_frame_after_spike_restores_tracking() {
    let mut stabilizer = TrackingFrameStabilizer::new(true);
    let good = make_frame(20.0, 8.0, 12.0, 3.0);
    let _ = feed(&mut stabilizer, good);

    let _ = feed(&mut stabilizer, make_frame(0.0, 0.0, 0.0, 0.0));
    let recovery = make_frame(18.0, 7.0, 11.0, 2.5);
    let out = feed(&mut stabilizer, recovery);
    assert_eq!(out, recovery, "valid frame after spike should be accepted");
}

#[test]
fn reset_clears_state() {
    let mut stabilizer = TrackingFrameStabilizer::new(true);
    let good = make_frame(20.0, 8.0, 12.0, 3.0);
    let _ = feed(&mut stabilizer, good);
    stabilizer.reset();

    let origin = make_frame(0.0, 0.0, 0.0, 0.0);
    let out = feed(&mut stabilizer, origin);
    assert_eq!(out, origin, "first frame after reset should pass through");
}

#[test]
fn set_enabled_false_resets_and_disables() {
    let mut stabilizer = TrackingFrameStabilizer::new(true);
    let _ = feed(&mut stabilizer, make_frame(20.0, 8.0, 0.0, 0.0));

    stabilizer.set_enabled(false);
    assert!(!stabilizer.is_enabled());
    assert!(stabilizer.last_good().is_none());
    let spike = make_frame(0.0, 0.0, 0.0, 0.0);
    let out = feed(&mut stabilizer, spike);
    assert_eq!(out, spike);
}

#[test]
fn stabilizer_holds_at_most_the_limit_then_accepts() {
    let mut stabilizer: TrackingFrameStabilizer<u32> = TrackingFrameStabilizer::new(true);
    assert_eq!(stabilizer.update(7, false), 7);
    for _ in 0..MAX_HOLD_FRAMES {
        assert_eq!(stabilizer.update(0, true), 7);
    }
    assert_eq!(stabilizer.update(0, true), 0);
    assert_eq!(stabilizer.update(1, true), 0);
    assert_eq!(stabilizer.last_good(), Some(0));
}
