use pathtracing::timer::{Timer, FPS_SCALE, FPS_WINDOW, NANOS_PER_SECOND};

#[test]
fn a_new_timer_has_measured_nothing() {
    let timer = Timer::new(1_000);
    let state = timer.get_state();
    assert_eq!(state.get_now(), 1_000);
    assert_eq!(state.get_time(), 0);
    assert_eq!(state.get_delta_time(), 0);
    assert_eq!(state.get_fps(), 0);
}

#[test]
fn delta_is_the_time_since_the_tick_before() {
    let mut timer = Timer::new(1_000);
    timer.response(1_400);
    assert_eq!(timer.get_state().get_delta_time(), 400);
    assert_eq!(timer.get_state().get_time(), 400);
    timer.response(2_500);
    assert_eq!(timer.get_state().get_delta_time(), 1_100);
    assert_eq!(timer.get_state().get_time(), 1_500);
    assert_eq!(timer.get_state().get_now(), 2_500);
}

#[test]
fn a_clock_that_stands_still_gives_delta_0() {
    let mut timer = Timer::new(50);
    timer.response(50);
    assert_eq!(timer.get_state().get_delta_time(), 0);
    assert_eq!(timer.get_state().get_time(), 0);
}

#[test]
fn a_reading_before_the_last_one_counts_as_the_last_one() {
    let mut timer = Timer::new(1_000);
    timer.response(5_000);
    timer.response(3_000);
    let state = timer.get_state();
    assert_eq!(state.get_delta_time(), 0);
    assert_eq!(state.get_now(), 5_000);
    assert_eq!(state.get_time(), 4_000);
    timer.response(6_000);
    assert_eq!(timer.get_state().get_delta_time(), 1_000);
}

#[test]
fn a_reading_before_the_start_counts_as_the_start() {
    let mut timer = Timer::new(1_000);
    timer.response(10);
    assert_eq!(timer.get_state().get_delta_time(), 0);
    assert_eq!(timer.get_state().get_time(), 0);
    assert_eq!(timer.get_state().get_now(), 1_000);
}

#[test]
fn the_rate_is_0_until_a_window_is_full() {
    let mut timer = Timer::new(0);
    timer.response(FPS_WINDOW / 2);
    assert_eq!(timer.get_state().get_fps(), 0);
    timer.response(FPS_WINDOW - 1);
    assert_eq!(timer.get_state().get_fps(), 0);
}

#[test]
fn sixty_frames_in_a_second_are_60000_per_thousand_seconds() {
    let mut timer = Timer::new(7);
    for i in 1u64..=60 {
        timer.response(7 + i * NANOS_PER_SECOND / 60);
    }
    assert_eq!(timer.get_state().get_fps(), 60_000);
}

#[test]
fn the_rate_is_frames_times_scale_by_span_rounded_down() {
    let mut timer = Timer::new(0);
    timer.response(400_000_000);
    timer.response(800_000_000);
    timer.response(1_200_000_000);
    assert_eq!(timer.get_state().get_fps(), 2_500);
    assert_eq!(3 * FPS_SCALE / 1_200_000_000, 2_500);
    timer.response(1_500_000_000);
    timer.response(4_200_000_000);
    assert_eq!(timer.get_state().get_fps(), 666);
    assert_eq!(2 * FPS_SCALE / 3_000_000_000, 666);
}

#[test]
fn the_rate_holds_until_the_next_window_is_full() {
    let mut timer = Timer::new(0);
    timer.response(1_000_000_000);
    assert_eq!(timer.get_state().get_fps(), 1_000);
    timer.response(1_100_000_000);
    timer.response(1_999_999_999);
    assert_eq!(timer.get_state().get_fps(), 1_000);
    timer.response(2_000_000_000);
    assert_eq!(timer.get_state().get_fps(), 3_000);
}

#[test]
fn a_window_of_one_long_tick_measures_that_tick() {
    let mut timer = Timer::new(0);
    timer.response(10 * NANOS_PER_SECOND);
    assert_eq!(timer.get_state().get_fps(), 100);
    assert_eq!(timer.get_state().get_delta_time(), 10 * NANOS_PER_SECOND);
}

#[test]
fn the_greatest_reading_is_taken() {
    let mut timer = Timer::new(0);
    timer.response(u64::MAX);
    assert_eq!(timer.get_state().get_delta_time(), u64::MAX);
    assert_eq!(timer.get_state().get_time(), u64::MAX);
    assert_eq!(timer.get_state().get_fps(), 0);
    timer.response(u64::MAX);
    assert_eq!(timer.get_state().get_delta_time(), 0);
}
