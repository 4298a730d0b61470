use unvet::config::{OutputBackendKind, OutputSendFilterConfig, OutputSendFilterMode};
use unvet::errors::AppError;
use unvet::output_layer::{BackendAction, BackendCommand, OutputBackendLayer};
use unvet::process_filter::{process_name_matches_filter, send_filter_status};

fn unrestricted_filter() -> OutputSendFilterConfig {
    OutputSendFilterConfig::default()
}

/// What a backend saw: `Some(true)` for the frame sent, `Some(false)` for
/// the neutral frame, and its enable switches.
#[derive(Debug, Clone, Default)]
struct MockBackendState {
    enabled_history: Vec<bool>,
    applied_frames: Vec<bool>,
}

fn run(backends: &mut [MockBackendState], actions: &[BackendAction]) {
    for action in actions {
        let backend = &mut backends[action.index];
        match action.command {
            BackendCommand::SetEnabled(on) => backend.enabled_history.push(on),
            BackendCommand::ApplyFrame => backend.applied_frames.push(true),
            BackendCommand::ApplyNeutral => backend.applied_frames.push(false),
        }
    }
}

fn all_kinds() -> Vec<OutputBackendKind> {
    vec![OutputBackendKind::Ets2, OutputBackendKind::Mouse, OutputBackendKind::Keyboard]
}

fn build(active: OutputBackendKind, backends: &mut [MockBackendState]) -> OutputBackendLayer {
    let (layer, actions) =
        OutputBackendLayer::with_backends(active, unrestricted_filter(), all_kinds()).expect("build output backend layer");
    run(backends, &actions);
    layer
}

fn apply(layer: &mut OutputBackendLayer, backends: &mut [MockBackendState], allowed: bool) {
    let actions = layer.begin_apply(allowed);
    run(backends, &actions);
    layer.finish_apply(allowed);
}

#[test]
fn with_backends_rejects_empty_registration() {
    let result = OutputBackendLayer::with_backends(OutputBackendKind::Ets2, unrestricted_filter(), Vec::new());
    assert!(result.is_err());
    match result {
        Err(AppError::InvalidState(m)) => assert_eq!(m, "output backend layer requires at least one backend"),
        _ => panic!("expected an invalid-state error"),
    }
}

#[test]
fn apply_routes_to_active_backend_only() {
    let mut backends = vec![MockBackendState::default(); 3];
    let mut layer = build(OutputBackendKind::Mouse, &mut backends);

    apply(&mut layer, &mut backends, true);

    assert_eq!(backends[0].applied_frames.len(), 0);
    assert_eq!(backends[1].applied_frames.len(), 1);
    assert_eq!(backends[2].applied_frames.len(), 0);
}

#[test]
fn switching_backend_deactivates_previous_backend() {
    let mut backends = vec![MockBackendState::default(); 3];
    let mut layer = build(OutputBackendKind::Keyboard, &mut backends);

    apply(&mut layer, &mut backends, true);
    let actions = layer.begin_set_active_backend(OutputBackendKind::Ets2).expect("switch active backend");
    run(&mut backends, &actions);
    let actions = layer.finish_set_active_backend(OutputBackendKind::Ets2);
    run(&mut backends, &actions);

    let keyboard = &backends[2];
    assert_eq!(keyboard.applied_frames.len(), 2);
    assert!(!keyboard.applied_frames[1]);

    let ets2 = &backends[0];
    assert_eq!(ets2.enabled_history.last().copied(), Some(true));
    assert_eq!(layer.active_backend_kind(), OutputBackendKind::Ets2);
}

#[test]
fn disabling_layer_flushes_active_backend_once() {
    let mut backends = vec![MockBackendState::default(); 3];
    let mut layer = build(OutputBackendKind::Keyboard, &mut backends);

    apply(&mut layer, &mut backends, true);
    let actions = layer.begin_set_enabled(false);
    run(&mut backends, &actions);
    let actions = layer.finish_set_enabled(false);
    run(&mut backends, &actions);

    let keyboard = &backends[2];
    assert_eq!(keyboard.applied_frames.len(), 2);
    assert!(!keyboard.applied_frames[1]);
    assert_eq!(keyboard.enabled_history.last().copied(), Some(false));
    assert!(!layer.is_enabled());

    let actions = layer.begin_set_enabled(false);
    assert!(actions.is_empty());
    let actions = layer.finish_set_enabled(false);
    assert!(actions.is_empty());
}

#[test]
fn registration_enables_only_the_active_backend() {
    let (layer, actions) =
        OutputBackendLayer::with_backends(OutputBackendKind::Touch, unrestricted_filter(), all_kinds()).expect("layer");
    assert_eq!(layer.active_backend_kind(), OutputBackendKind::Ets2);
    assert_eq!(layer.active_backend_index(), 0);
    let enabled: Vec<bool> = actions
        .iter()
        .map(|a| matches!(a.command, BackendCommand::SetEnabled(true)))
        .collect();
    assert_eq!(enabled, vec![true, false, false]);
}

#[test]
fn switching_to_unregistered_backend_is_refused() {
    let mut backends = vec![MockBackendState::default(); 3];
    let layer = build(OutputBackendKind::Ets2, &mut backends);
    match layer.begin_set_active_backend(OutputBackendKind::Touch) {
        Err(AppError::InvalidState(m)) => assert_eq!(m, "output backend is not registered: Touch"),
        _ => panic!("expected refusal"),
    }
    assert!(layer.begin_set_active_backend(OutputBackendKind::Ets2).expect("same backend").is_empty());
}

#[test]
fn closing_send_gate_sends_one_neutral_frame() {
    let mut backends = vec![MockBackendState::default(); 3];
    let mut layer = build(OutputBackendKind::Ets2, &mut backends);
    apply(&mut layer, &mut backends, true);
    apply(&mut layer, &mut backends, false);
    apply(&mut layer, &mut backends, false);
    assert_eq!(backends[0].applied_frames, vec![true, false]);

    let actions = layer.begin_set_send_filter(OutputSendFilterConfig {
        mode: OutputSendFilterMode::ForegroundProcess,
        process_names: vec!["eurotrucks2.exe".to_owned()],
    });
    assert!(actions.is_empty());
    layer.finish_set_send_filter();
    assert_eq!(layer.send_filter().mode, OutputSendFilterMode::ForegroundProcess);
}

#[test]
fn process_filter_accepts_case_insensitive_process_name() {
    let filter = OutputSendFilterConfig {
        mode: OutputSendFilterMode::ForegroundProcess,
        process_names: vec!["EuroTrucks2.exe".to_owned(), "amtrucks.exe".to_owned()],
    };

    assert!(process_name_matches_filter(&filter, Some(r#"C:\\Games\\SCS\\eurotrucks2.exe"#)));
    assert!(process_name_matches_filter(&filter, Some("AMTRUCKS.EXE")));
    assert!(!process_name_matches_filter(&filter, Some("notepad.exe")));
}

#[test]
fn process_filter_blocks_when_no_target_process_is_configured() {
    let filter = OutputSendFilterConfig {
        mode: OutputSendFilterMode::ForegroundProcess,
        process_names: Vec::new(),
    };

    assert!(!process_name_matches_filter(&filter, Some("eurotrucks2.exe")));
}

#[test]
fn send_filter_status_names_foreground_process() {
    let filter = OutputSendFilterConfig {
        mode: OutputSendFilterMode::ForegroundProcess,
        process_names: vec!["amtrucks.exe".to_owned()],
    };
    let status = send_filter_status(&filter, Some("D:/Steam/ATS/bin/AmTrucks.exe"));
    assert!(status.allowed);
    assert_eq!(status.active_process_name.as_deref(), Some("amtrucks.exe"));

    let status = send_filter_status(&unrestricted_filter(), Some("notepad.exe"));
    assert!(status.allowed);
    assert!(status.active_process_name.is_none());
}
