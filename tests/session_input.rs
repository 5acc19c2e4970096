use vr_overlay_native::controller::{
    check_device_index, controller_indices, hand_source, override_pressed, override_sources,
    ControllerButtons, ControllerRole, DigitalReading, BUTTON_GRIP, BUTTON_JOYSTICK,
    BUTTON_TOUCHPAD, BUTTON_TRIGGER,
};
use vr_overlay_native::error::OverlayError;
use vr_overlay_native::input::{
    classify_binding_query, binding_entries_to_read, is_non_fatal_binding_info_error,
    ActionHandles, BindingQuery, CurrentBindings, InputActionCache, ToggleDebounce,
};
use vr_overlay_native::session::{AcquireOutcome, ReleaseOutcome, SessionRegistry};

fn clicks(samples: &[bool]) -> Vec<bool> {
    let mut d = ToggleDebounce::new();
    samples.iter().map(|s| d.poll(*s)).collect()
}

#[test]
fn session_initializes_once_and_tears_down_after_last_release() {
    let mut reg = SessionRegistry::new();
    assert!(reg.needs_init());
    assert_eq!(reg.finish_acquire(true), AcquireOutcome::Acquired);
    assert!(!reg.needs_init());
    assert_eq!(reg.finish_acquire(true), AcquireOutcome::Acquired);
    assert_eq!(reg.count(), 2);
    assert_eq!(reg.release(), ReleaseOutcome::Released);
    assert_eq!(reg.finish_acquire(true), AcquireOutcome::Acquired);
    assert_eq!(reg.release(), ReleaseOutcome::Released);
    assert_eq!(reg.release(), ReleaseOutcome::Shutdown);
    assert_eq!(reg.count(), 0);
    assert!(reg.needs_init());
}

#[test]
fn failed_fresh_acquire_shuts_down_and_counts_nothing() {
    let mut reg = SessionRegistry::new();
    assert_eq!(reg.finish_acquire(false), AcquireOutcome::ShutdownAndFail);
    assert_eq!(reg.count(), 0);
    assert_eq!(reg.finish_acquire(true), AcquireOutcome::Acquired);
    assert_eq!(reg.finish_acquire(false), AcquireOutcome::Failed);
    assert_eq!(reg.count(), 1);
}

#[test]
fn release_without_holder_is_a_no_op() {
    let mut reg = SessionRegistry::new();
    assert_eq!(reg.release(), ReleaseOutcome::Underflow);
    assert_eq!(reg.count(), 0);
}

#[test]
fn debounce_second_press_within_streak_does_not_click() {
    assert_eq!(clicks(&[true, true, false, false, true]), vec![true, false, false, false, false]);
}

#[test]
fn debounce_rearms_after_three_releases() {
    assert_eq!(clicks(&[true, false, false, false, true]), vec![true, false, false, false, true]);
}

#[test]
fn debounce_locks_while_held() {
    assert_eq!(clicks(&[false, true, true, true]), vec![false, true, false, false]);
    let mut d = ToggleDebounce::new();
    for _ in 0..300 {
        assert!(!d.poll(false));
    }
    assert_eq!(d.toggle_release_streak, 255);
    assert!(d.poll(true));
}

#[test]
fn poll_before_input_init_fails() {
    let mut cache = InputActionCache::new();
    assert_eq!(cache.poll_toggle(true, true), Err(OverlayError::InputNotInitialized));
    let handles = ActionHandles {
        action_set: 1,
        toggle_action: 2,
        trigger_action: 3,
        grip_action: 4,
        left_hand_source: 5,
        right_hand_source: 6,
    };
    cache.initialize(handles);
    assert_eq!(cache.poll_toggle(true, true), Ok(true));
    assert_eq!(cache.poll_toggle(false, true), Ok(false));
    assert_eq!(cache.poll_toggle(true, true), Ok(false));
    cache.initialize(handles);
    assert_eq!(cache.poll_toggle(true, true), Ok(true));
}

#[test]
fn binding_query_errors_are_classified() {
    assert_eq!(classify_binding_query(0), BindingQuery::Read);
    assert_eq!(classify_binding_query(14), BindingQuery::Read);
    assert_eq!(classify_binding_query(13), BindingQuery::NoBindings);
    assert_eq!(classify_binding_query(8), BindingQuery::NoBindings);
    assert_eq!(classify_binding_query(3), BindingQuery::Failed);
    assert!(is_non_fatal_binding_info_error(13));
    assert!(!is_non_fatal_binding_info_error(14));
    assert_eq!(binding_entries_to_read(40, 16), 16);
    assert_eq!(binding_entries_to_read(3, 16), 3);
}

#[test]
fn bindings_report_bound_actions() {
    let b = CurrentBindings::from_labels(
        vec!["/user/hand/left /input/a click".to_string()],
        vec![],
        vec!["grip".to_string()],
    );
    assert!(b.initialized);
    assert!(!b.triggerBound);
    assert!(b.gripBound);
    assert_eq!(b.toggleOverlay.len(), 1);
    let u = CurrentBindings::uninitialized();
    assert!(!u.initialized && !u.triggerBound && !u.gripBound && u.gripBindings.is_empty());
}

#[test]
fn buttons_decode_from_mask() {
    let b = ControllerButtons::from_button_mask(BUTTON_TRIGGER | BUTTON_JOYSTICK);
    assert!(b.trigger_pressed && b.joystick_pressed && !b.grip_pressed && !b.touchpad_pressed);
    let g = ControllerButtons::from_button_mask(1u64 << 2 | 1u64 << 32);
    assert!(g.grip_pressed && g.touchpad_pressed && !g.trigger_pressed);
    assert_eq!(BUTTON_GRIP, 4);
    assert_eq!(BUTTON_TOUCHPAD, 1u64 << 32);
    assert_eq!(ControllerButtons::released(), ControllerButtons::from_button_mask(0));
}

#[test]
fn controller_indices_lists_controllers_in_order() {
    let mut classes = vec![false; 64];
    classes[1] = true;
    classes[2] = true;
    classes[63] = true;
    assert_eq!(controller_indices(&classes), vec![1, 2, 63]);
    assert_eq!(controller_indices(&vec![]), Vec::<u32>::new());
}

#[test]
fn device_index_must_be_below_limit() {
    assert_eq!(check_device_index(63), Ok(63));
    assert_eq!(check_device_index(64), Err(OverlayError::InvalidDeviceIndex));
}

#[test]
fn hand_source_preferred_then_wildcard() {
    let handles = ActionHandles {
        action_set: 1,
        toggle_action: 2,
        trigger_action: 3,
        grip_action: 4,
        left_hand_source: 50,
        right_hand_source: 60,
    };
    assert_eq!(hand_source(&handles, ControllerRole::LeftHand), 50);
    assert_eq!(hand_source(&handles, ControllerRole::RightHand), 60);
    assert_eq!(hand_source(&handles, ControllerRole::Other), 0);
    assert_eq!(override_sources(50), vec![50, 0]);
    assert_eq!(override_sources(0), vec![0]);
}

#[test]
fn first_active_reading_overrides_button() {
    let inactive = DigitalReading { ok: true, active: false, state: true };
    let failed = DigitalReading { ok: false, active: true, state: true };
    let released = DigitalReading { ok: true, active: true, state: false };
    let pressed = DigitalReading { ok: true, active: true, state: true };
    assert!(override_pressed(true, &vec![]));
    assert!(override_pressed(true, &vec![inactive, failed]));
    assert!(!override_pressed(true, &vec![released, pressed]));
    assert!(override_pressed(false, &vec![inactive, pressed]));
}

#[test]
fn only_first_acquire_initializes_at_any_count() {
    let mut reg = SessionRegistry::new();
    assert!(reg.needs_init());
    assert_eq!(reg.finish_acquire(true), AcquireOutcome::Acquired);
    for held in 1..6usize {
        assert_eq!(reg.count(), held);
        assert!(!reg.needs_init());
        assert_eq!(reg.finish_acquire(false), AcquireOutcome::Failed);
        assert_eq!(reg.finish_acquire(true), AcquireOutcome::Acquired);
    }
    for left in (1..6usize).rev() {
        assert_eq!(reg.release(), ReleaseOutcome::Released);
        assert_eq!(reg.count(), left);
    }
    assert_eq!(reg.release(), ReleaseOutcome::Shutdown);
    assert!(reg.needs_init());
    assert_eq!(reg.release(), ReleaseOutcome::Underflow);
}
