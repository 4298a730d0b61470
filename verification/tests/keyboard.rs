use unvet::keyboard::{
    next_state, transition_events, AxisReading, AxisState, KeyEvent, KeyEventKind, KeyboardBackend, VK_A, VK_D,
    VK_S, VK_W,
};

/// How `value` compares with the press and release thresholds.
fn reading(value: f32, press: f32, release: f32) -> AxisReading {
    AxisReading {
        at_or_below_negative_press: value <= -press,
        at_or_above_press: value >= press,
        at_or_above_negative_release: value >= -release,
        at_or_below_release: value <= release,
    }
}

fn default_reading(value: f32) -> AxisReading {
    reading(value, 0.35, 0.2)
}

#[test]
fn next_state_enters_direction_from_neutral() {
    let state = next_state(reading(-0.4, 0.35, 0.2), AxisState::Neutral);
    assert_eq!(state, AxisState::Negative);

    let state = next_state(reading(0.5, 0.35, 0.2), AxisState::Neutral);
    assert_eq!(state, AxisState::Positive);
}

#[test]
fn next_state_uses_hysteresis_for_release() {
    let held_negative = next_state(reading(-0.21, 0.35, 0.2), AxisState::Negative);
    assert_eq!(held_negative, AxisState::Negative);

    let released_negative = next_state(reading(-0.19, 0.35, 0.2), AxisState::Negative);
    assert_eq!(released_negative, AxisState::Neutral);
}

#[test]
fn transition_negative_to_positive_releases_then_presses() {
    let events = transition_events(AxisState::Negative, AxisState::Positive, VK_A, VK_D);
    assert_eq!(
        events,
        [
            Some(KeyEvent { virtual_key: VK_A, kind: KeyEventKind::Up }),
            Some(KeyEvent { virtual_key: VK_D, kind: KeyEventKind::Down }),
        ]
    );
}

#[test]
fn collect_frame_events_maps_yaw_and_pitch_to_wasd() {
    let backend = KeyboardBackend::default();
    let (next_x, next_y, events) = backend.collect_frame_events(true, default_reading(0.6), default_reading(-0.7));

    assert_eq!(next_x, AxisState::Positive);
    assert_eq!(next_y, AxisState::Negative);
    assert_eq!(
        events,
        vec![
            KeyEvent { virtual_key: VK_D, kind: KeyEventKind::Down },
            KeyEvent { virtual_key: VK_W, kind: KeyEventKind::Down },
        ]
    );
}

#[test]
fn inactive_frame_releases_pressed_keys() {
    let backend = KeyboardBackend {
        x_state: AxisState::Negative,
        y_state: AxisState::Positive,
        ..KeyboardBackend::default()
    };
    let (next_x, next_y, events) = backend.collect_frame_events(false, default_reading(-0.9), default_reading(0.9));

    assert_eq!(next_x, AxisState::Neutral);
    assert_eq!(next_y, AxisState::Neutral);
    assert_eq!(
        events,
        vec![
            KeyEvent { virtual_key: VK_A, kind: KeyEventKind::Up },
            KeyEvent { virtual_key: VK_S, kind: KeyEventKind::Up },
        ]
    );
}

#[test]
fn disabled_backend_releases_everything_and_commit_adopts_states() {
    let mut backend = KeyboardBackend {
        x_state: AxisState::Positive,
        y_state: AxisState::Negative,
        ..KeyboardBackend::default()
    };
    backend.set_enabled(false);
    assert!(!backend.is_enabled());
    let (x, y, events) = backend.plan_apply(true, default_reading(0.9), default_reading(0.9));
    assert_eq!((x, y), (AxisState::Neutral, AxisState::Neutral));
    assert_eq!(
        events,
        vec![
            KeyEvent { virtual_key: VK_D, kind: KeyEventKind::Up },
            KeyEvent { virtual_key: VK_W, kind: KeyEventKind::Up },
        ]
    );
    backend.commit_states(x, y);
    assert_eq!(backend.x_state, AxisState::Neutral);
    assert_eq!(backend.collect_release_events(), Vec::new());
}

#[test]
fn neutral_reading_keeps_neutral_quiet() {
    let backend = KeyboardBackend::default();
    let (x, y, events) = backend.plan_apply(true, default_reading(0.1), default_reading(-0.1));
    assert_eq!((x, y), (AxisState::Neutral, AxisState::Neutral));
    assert!(events.is_empty());
}
