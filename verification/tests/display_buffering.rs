use gpui_platform::display_buffering::{
    display_buffering, set_display_buffering, DisplayBuffering, DisplayBufferingState,
};
use std::sync::atomic::AtomicU8;

const MS: u64 = 1_000_000;

#[test]
fn the_preference_reads_back_what_was_set() {
    let preference = AtomicU8::new(0);
    assert_eq!(display_buffering(&preference), DisplayBuffering::Auto);
    for mode in [DisplayBuffering::Double, DisplayBuffering::Triple, DisplayBuffering::Auto] {
        set_display_buffering(&preference, mode);
        assert_eq!(display_buffering(&preference), mode);
    }
}

#[test]
fn unknown_codes_read_as_auto() {
    assert_eq!(DisplayBuffering::from_code(0), DisplayBuffering::Auto);
    assert_eq!(DisplayBuffering::from_code(1), DisplayBuffering::Double);
    assert_eq!(DisplayBuffering::from_code(2), DisplayBuffering::Triple);
    assert_eq!(DisplayBuffering::from_code(3), DisplayBuffering::Auto);
    assert_eq!(DisplayBuffering::from_code(255), DisplayBuffering::Auto);
    assert_eq!(DisplayBuffering::Triple.code(), 2);
    assert_eq!(DisplayBuffering::default(), DisplayBuffering::Auto);
}

#[test]
fn fixed_modes_request_fixed_counts() {
    let mut double = DisplayBufferingState::new(DisplayBuffering::Double);
    let mut triple = DisplayBufferingState::new(DisplayBuffering::Triple);
    for i in 0..20 {
        double.observe_wait(i * 50 * MS, 40 * MS);
        triple.observe_wait(i * 50 * MS, 40 * MS);
    }
    assert_eq!(double.drawable_count(), 2);
    assert_eq!(triple.drawable_count(), 3);
    assert_eq!(DisplayBufferingState::new(DisplayBuffering::Auto).drawable_count(), 2);
}

#[test]
fn six_stalls_within_two_seconds_promote() {
    let mut state = DisplayBufferingState::new(DisplayBuffering::Auto);
    // The first frame follows no frame at all, so it is ignored however long it waits.
    state.observe_wait(1000 * MS, 30 * MS);
    let mut now = 1000 * MS;
    for stall in 1..=6 {
        assert_eq!(state.drawable_count(), 2, "promoted after only {} stalls", stall - 1);
        now += 100 * MS;
        state.observe_wait(now, 30 * MS);
    }
    assert_eq!(state.drawable_count(), 3);
    // Promotion is sticky: idle gaps and quick frames do not demote.
    state.observe_wait(now + 10_000 * MS, 0);
    state.observe_wait(now + 10_010 * MS, 1 * MS);
    assert_eq!(state.drawable_count(), 3);
}

#[test]
fn waits_of_twenty_milliseconds_are_not_stalls() {
    let mut state = DisplayBufferingState::new(DisplayBuffering::Auto);
    let mut now = 0;
    for _ in 0..20 {
        state.observe_wait(now, 20 * MS);
        now += 50 * MS;
    }
    assert_eq!(state.drawable_count(), 2);
}

#[test]
fn an_idle_gap_restarts_the_count() {
    let mut state = DisplayBufferingState::new(DisplayBuffering::Auto);
    let mut now = 0;
    state.observe_wait(now, 0);
    for _ in 0..5 {
        now += 100 * MS;
        state.observe_wait(now, 30 * MS);
    }
    // A gap over 250 ms after the end of the last frame: this frame is ignored and restarts.
    now += 30 * MS + 251 * MS;
    state.observe_wait(now, 30 * MS);
    assert_eq!(state.drawable_count(), 2);
    for _ in 0..5 {
        now += 100 * MS;
        state.observe_wait(now, 30 * MS);
    }
    assert_eq!(state.drawable_count(), 2);
    now += 100 * MS;
    state.observe_wait(now, 30 * MS);
    assert_eq!(state.drawable_count(), 3);
}

#[test]
fn blocked_time_does_not_count_as_idle() {
    let mut state = DisplayBufferingState::new(DisplayBuffering::Auto);
    let mut now = 0;
    state.observe_wait(now, 200 * MS);
    // Each frame waits 200 ms and the next starts 300 ms later: only 100 ms after the wait ended.
    for _ in 0..6 {
        now += 300 * MS;
        state.observe_wait(now, 200 * MS);
    }
    assert_eq!(state.drawable_count(), 3);
}

#[test]
fn stalls_spread_over_more_than_two_seconds_do_not_promote() {
    let mut state = DisplayBufferingState::new(DisplayBuffering::Auto);
    let mut now = 0;
    state.observe_wait(now, 0);
    // A stall every 500 ms: at most five fit in any two-second interval.
    for _ in 0..20 {
        now += 250 * MS;
        state.observe_wait(now, 30 * MS);
        now += 250 * MS;
        state.observe_wait(now, 0);
    }
    assert_eq!(state.drawable_count(), 2);
}

#[test]
fn changing_the_mode_resets_promotion_but_setting_it_again_does_not() {
    let mut state = DisplayBufferingState::new(DisplayBuffering::Auto);
    let mut now = 0;
    state.observe_wait(now, 0);
    for _ in 0..6 {
        now += 100 * MS;
        state.observe_wait(now, 30 * MS);
    }
    assert_eq!(state.drawable_count(), 3);
    state.set_mode(DisplayBuffering::Auto);
    assert_eq!(state.drawable_count(), 3);
    state.set_mode(DisplayBuffering::Double);
    assert_eq!(state.drawable_count(), 2);
    state.set_mode(DisplayBuffering::Auto);
    assert_eq!(state.drawable_count(), 2);
}
