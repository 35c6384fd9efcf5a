use riablo::animation::AnimationState;

fn frame_fraction(s: &AnimationState) -> f64 {
    s.frame_index as f64 / s.total_frames as f64
}

#[test]
fn new_state_starts_at_frame_zero_and_idle() {
    let s = AnimationState::new(4, 150, 1000);
    assert_eq!(s.frame_index, 0);
    assert_eq!(s.total_frames, 4);
    assert_eq!(s.last_advance_time, 1000);
    assert_eq!(s.frame_period, 150);
    assert!(!s.is_moving);
    assert_eq!(frame_fraction(&s), 0.0);
}

#[test]
fn advance_is_a_noop_while_idle_whatever_the_elapsed_time() {
    let mut s = AnimationState::new(4, 150, 0);
    s.advance_animation(1_000_000);
    assert_eq!(s.frame_index, 0);
    assert_eq!(s.last_advance_time, 0);
}

#[test]
fn advance_within_the_period_is_a_noop() {
    let mut s = AnimationState::new(4, 150, 0);
    s.is_moving = true;
    s.advance_animation(149);
    assert_eq!(s.frame_index, 0);
    assert_eq!(s.last_advance_time, 0);
}

#[test]
fn advance_fires_at_exactly_one_period() {
    let mut s = AnimationState::new(4, 150, 0);
    s.is_moving = true;
    s.advance_animation(150);
    assert_eq!(s.frame_index, 1);
    assert_eq!(s.last_advance_time, 150);
}

#[test]
fn scenario_advance_then_one_millisecond_later() {
    // total_frames = 4, frame_period = 150 ms, starting at frame zero,
    // moving, last advance at time 0.
    let mut s = AnimationState::new(4, 150, 0);
    s.is_moving = true;

    // 160 ms later: one period has passed, so the frame advances.
    s.advance_animation(160);
    assert_eq!(frame_fraction(&s), 0.25);
    assert_eq!(s.last_advance_time, 160);

    // 1 ms after that: not enough elapsed time, nothing changes.
    s.advance_animation(161);
    assert_eq!(frame_fraction(&s), 0.25);
    assert_eq!(s.last_advance_time, 160);
}

#[test]
fn no_burst_catch_up_within_one_period() {
    // Far more than two periods elapse before the first call, yet two calls
    // less than one period apart yield exactly one increment.
    let mut s = AnimationState::new(4, 150, 0);
    s.is_moving = true;
    s.advance_animation(400);
    assert_eq!(s.frame_index, 1);
    s.advance_animation(401);
    assert_eq!(s.frame_index, 1);
}

#[test]
fn stale_clock_reading_is_a_noop() {
    let mut s = AnimationState::new(4, 150, 1000);
    s.is_moving = true;
    s.advance_animation(500);
    assert_eq!(s.frame_index, 0);
    assert_eq!(s.last_advance_time, 1000);
}

#[test]
fn frame_wraps_to_zero_after_the_last_frame() {
    let mut s = AnimationState::new(4, 150, 0);
    s.is_moving = true;
    s.frame_index = 3;
    s.advance_animation(150);
    assert_eq!(s.frame_index, 0);
}

#[test]
fn cycle_closes_after_total_frames_advances_and_fraction_stays_below_one() {
    let mut s = AnimationState::new(4, 150, 0);
    s.is_moving = true;
    let mut now = 0u64;
    for step in 1..=4u64 {
        now += 150;
        s.advance_animation(now);
        assert!(frame_fraction(&s) >= 0.0 && frame_fraction(&s) < 1.0);
        assert_eq!(s.frame_index, step % 4);
    }
    // After exactly `total_frames` successful advances the fraction is back
    // to zero.
    assert_eq!(frame_fraction(&s), 0.0);
}

#[test]
fn single_frame_cycle_stays_at_zero() {
    let mut s = AnimationState::new(1, 150, 0);
    s.is_moving = true;
    s.advance_animation(150);
    assert_eq!(s.frame_index, 0);
    assert_eq!(s.last_advance_time, 150);
}
