use gpui_platform::frame_retry::FrameRetry;

#[test]
fn failed_present_retries_without_waiting_for_input() {
    let mut retry = FrameRetry::default();
    assert!(retry.record(false, false, false));
    assert_eq!(retry.take_request(), Some(false));
    assert!(!retry.record(true, false, false));
    assert_eq!(retry.take_request(), None);
}

#[test]
fn atlas_recovery_bypasses_cached_sprites() {
    let mut retry = FrameRetry::default();
    assert!(retry.record(false, true, false));
    assert!(retry.record(false, false, false));
    assert_eq!(retry.take_request(), Some(true));
}

#[test]
fn persistent_failure_is_bounded_and_success_resets_the_budget() {
    let mut retry = FrameRetry::default();
    for _ in 0..9 {
        assert!(retry.record(false, false, false));
        assert_eq!(retry.take_request(), Some(false));
    }
    assert!(!retry.record(false, false, false));
    assert_eq!(retry.take_request(), None);
    assert!(!retry.record(true, false, false));
    assert!(retry.record(false, false, false));
}

#[test]
fn device_loss_stops_pending_retries() {
    let mut retry = FrameRetry::default();
    assert!(retry.record(false, true, false));
    assert!(!retry.record(false, false, true));
    assert_eq!(retry.take_request(), None);
}

#[test]
fn ten_failures_without_taking_stop_the_retry() {
    let mut retry = FrameRetry::default();
    for _ in 0..9 {
        assert!(retry.record(false, false, false));
    }
    assert!(!retry.record(false, true, false));
    assert_eq!(retry.take_request(), None);
}

#[test]
fn the_failure_count_saturates_instead_of_wrapping() {
    let mut retry = FrameRetry::default();
    for attempt in 0..300 {
        assert_eq!(retry.record(false, false, false), attempt < 9);
        retry.take_request();
    }
    // Still exhausted after more than 255 failures: no wrap back into the budget.
    assert!(!retry.record(false, false, false));
    assert!(!retry.record(true, false, false));
    assert!(retry.record(false, false, false));
}

#[test]
fn a_success_that_still_needs_a_redraw_forces_render() {
    let mut retry = FrameRetry::default();
    assert!(retry.record(true, true, false));
    assert_eq!(retry.take_request(), Some(true));
    assert_eq!(retry.take_request(), None);
}

#[test]
fn a_force_request_survives_later_failures_until_taken() {
    let mut retry = FrameRetry::default();
    assert!(retry.record(false, true, false));
    assert!(retry.record(false, false, false));
    assert!(retry.record(false, false, false));
    assert_eq!(retry.take_request(), Some(true));
    assert!(retry.record(false, false, false));
    assert_eq!(retry.take_request(), Some(false));
}

#[test]
fn device_loss_after_success_requests_nothing() {
    let mut retry = FrameRetry::default();
    assert!(!retry.record(true, true, true));
    assert_eq!(retry.take_request(), None);
}
