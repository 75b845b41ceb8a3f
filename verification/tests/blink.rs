use blink::{
    clamp_delay, state_to_level, BlinkController, LedState, BLINK_DELAY_MS, MAX_BLINK_DELAY_MS,
    MIN_BLINK_DELAY_MS,
};

#[test]
fn test_new_controller() {
    let ctrl = BlinkController::new();
    assert_eq!(ctrl.state(), LedState::Off);
    assert_eq!(ctrl.delay_ms(), BLINK_DELAY_MS);
    assert_eq!(ctrl.toggle_count(), 0);
}

#[test]
fn test_with_delay() {
    let ctrl = BlinkController::with_delay(1000);
    assert_eq!(ctrl.delay_ms(), 1000);
}

#[test]
fn test_with_delay_clamps_low() {
    let ctrl = BlinkController::with_delay(1);
    assert_eq!(ctrl.delay_ms(), MIN_BLINK_DELAY_MS);
}

#[test]
fn test_with_delay_clamps_high() {
    let ctrl = BlinkController::with_delay(100000);
    assert_eq!(ctrl.delay_ms(), MAX_BLINK_DELAY_MS);
}

#[test]
fn test_toggle_off_to_on() {
    let mut ctrl = BlinkController::new();
    assert_eq!(ctrl.toggle(), LedState::On);
    assert!(ctrl.is_on());
}

#[test]
fn test_toggle_on_to_off() {
    let mut ctrl = BlinkController::new();
    ctrl.toggle();
    assert_eq!(ctrl.toggle(), LedState::Off);
    assert!(ctrl.is_off());
}

#[test]
fn test_toggle_count_increments() {
    let mut ctrl = BlinkController::new();
    ctrl.toggle();
    ctrl.toggle();
    ctrl.toggle();
    assert_eq!(ctrl.toggle_count(), 3);
}

#[test]
fn test_is_on_false_initially() {
    let ctrl = BlinkController::new();
    assert!(!ctrl.is_on());
}

#[test]
fn test_is_off_true_initially() {
    let ctrl = BlinkController::new();
    assert!(ctrl.is_off());
}

#[test]
fn test_set_delay() {
    let mut ctrl = BlinkController::new();
    ctrl.set_delay(250);
    assert_eq!(ctrl.delay_ms(), 250);
}

#[test]
fn test_set_delay_clamps() {
    let mut ctrl = BlinkController::new();
    ctrl.set_delay(1);
    assert_eq!(ctrl.delay_ms(), MIN_BLINK_DELAY_MS);
}

#[test]
fn test_state_to_level_on() {
    assert!(state_to_level(LedState::On));
}

#[test]
fn test_state_to_level_off() {
    assert!(!state_to_level(LedState::Off));
}

#[test]
fn test_clamp_delay_within_range() {
    assert_eq!(clamp_delay(500), 500);
}

#[test]
fn test_clamp_delay_below_min() {
    assert_eq!(clamp_delay(1), MIN_BLINK_DELAY_MS);
}

#[test]
fn test_clamp_delay_above_max() {
    assert_eq!(clamp_delay(100000), MAX_BLINK_DELAY_MS);
}

#[test]
fn test_default_controller() {
    let ctrl = BlinkController::default();
    assert_eq!(ctrl.state(), LedState::Off);
    assert_eq!(ctrl.delay_ms(), BLINK_DELAY_MS);
    assert_eq!(ctrl.toggle_count(), 0);
}

#[test]
fn test_toggle_twice_restores_state() {
    let mut ctrl = BlinkController::new();
    let before = ctrl.state();
    let count_before = ctrl.toggle_count();
    ctrl.toggle();
    ctrl.toggle();
    assert_eq!(ctrl.state(), before);
    assert_eq!(ctrl.toggle_count(), count_before + 2);
}

#[test]
fn test_is_on_ne_is_off_along_run() {
    let mut ctrl = BlinkController::new();
    assert_ne!(ctrl.is_on(), ctrl.is_off());
    ctrl.toggle();
    assert_ne!(ctrl.is_on(), ctrl.is_off());
    ctrl.toggle();
    assert_ne!(ctrl.is_on(), ctrl.is_off());
}

#[test]
fn test_set_delay_clamps_high() {
    let mut ctrl = BlinkController::new();
    ctrl.set_delay(u64::MAX);
    assert_eq!(ctrl.delay_ms(), MAX_BLINK_DELAY_MS);
}

#[test]
fn test_set_delay_always_in_range() {
    let mut ctrl = BlinkController::new();
    let inputs: [u64; 6] = [0, 1, MIN_BLINK_DELAY_MS, 777, MAX_BLINK_DELAY_MS, u64::MAX];
    for d in inputs {
        ctrl.set_delay(d);
        assert!(MIN_BLINK_DELAY_MS <= ctrl.delay_ms());
        assert!(ctrl.delay_ms() <= MAX_BLINK_DELAY_MS);
    }
}

#[test]
fn test_clamp_delay_at_bounds() {
    assert_eq!(clamp_delay(MIN_BLINK_DELAY_MS), MIN_BLINK_DELAY_MS);
    assert_eq!(clamp_delay(MAX_BLINK_DELAY_MS), MAX_BLINK_DELAY_MS);
}

#[test]
fn test_blink_scenario() {
    let mut ctrl = BlinkController::new();
    assert_eq!(ctrl.state(), LedState::Off);
    assert_eq!(ctrl.delay_ms(), BLINK_DELAY_MS);
    assert_eq!(ctrl.toggle_count(), 0);
    assert_eq!(ctrl.toggle(), LedState::On);
    assert_eq!(ctrl.toggle_count(), 1);
    assert_eq!(ctrl.toggle(), LedState::Off);
    assert_eq!(ctrl.toggle_count(), 2);
    ctrl.set_delay(1);
    assert_eq!(ctrl.delay_ms(), MIN_BLINK_DELAY_MS);
    ctrl.set_delay(100000);
    assert_eq!(ctrl.delay_ms(), MAX_BLINK_DELAY_MS);
    let ctrl = BlinkController::with_delay(1000);
    assert_eq!(ctrl.delay_ms(), 1000);
}
