use unvet::config::{
    InputConfig, InputSource, OutputBackendKind, OutputConfig, OutputSendFilterConfig, OutputSendFilterMode,
    RuntimeConfig, VmcOscPassthroughConfig, VmcOscPassthroughMode,
};
use unvet::process_filter::SendFilterStatus;
use unvet::runtime::{
    capture_calibration_due, initial_send_filter_allowed, input_live, input_needs_reconnect, keeps_idle_streaming,
    output_filter_snapshot, output_live, plan_cli_tick, plan_tick, receiver_setup, reconnect_due,
    restored_session, runtime_preferences, same_strings, send_filter_changed, store_runtime_preferences,
    store_session, validate_clutch_hotkey, validate_vmc_osc_port, InputSelection, OutputStep, ReceiverSetup,
    SessionToggles, SnapshotStep, TickInput,
};

fn toggles() -> SessionToggles {
    SessionToggles {
        spike_rejection_enabled: true,
        invert_output_yaw: true,
        invert_output_pitch: false,
        output_easing_enabled: false,
    }
}

fn configured() -> (InputConfig, OutputConfig, VmcOscPassthroughConfig) {
    let mut input = InputConfig::default();
    input.source = InputSource::VmcOsc;
    input.vmc_osc_port = 40000;
    let output = OutputConfig {
        backend: OutputBackendKind::Keyboard,
        enabled: false,
        send_filter: OutputSendFilterConfig {
            mode: OutputSendFilterMode::ForegroundProcess,
            process_names: vec!["eurotrucks2.exe".to_owned()],
        },
    };
    let passthrough = VmcOscPassthroughConfig {
        enabled: true,
        targets: vec!["127.0.0.1:39540".to_owned()],
        mode: VmcOscPassthroughMode::RawUdpForward,
    };
    (input, output, passthrough)
}

#[test]
fn session_is_restored_only_when_persisted() {
    let (input, output, passthrough) = configured();
    let mut runtime = RuntimeConfig::default();

    let fresh = restored_session(&runtime, &input, &output, &passthrough, toggles());
    assert!(fresh.output_enabled);
    assert_eq!(fresh.input_source, InputSource::IfacialmocapUdp);
    assert_eq!(fresh.vmc_osc_port, 40000);
    assert!(!fresh.passthrough_enabled);
    assert!(fresh.passthrough_targets.is_empty());
    assert_eq!(fresh.output_backend, OutputBackendKind::Ets2);
    assert_eq!(fresh.send_filter_mode, OutputSendFilterMode::Unrestricted);
    assert!(!fresh.toggles.spike_rejection_enabled);
    assert!(fresh.toggles.output_easing_enabled);
    assert!(initial_send_filter_allowed(fresh.send_filter_mode));

    runtime.persist_session_settings = true;
    let kept = restored_session(&runtime, &input, &output, &passthrough, toggles());
    assert!(!kept.output_enabled);
    assert_eq!(kept.input_source, InputSource::VmcOsc);
    assert!(kept.passthrough_enabled);
    assert_eq!(kept.passthrough_targets, vec!["127.0.0.1:39540".to_owned()]);
    assert_eq!(kept.output_backend, OutputBackendKind::Keyboard);
    assert_eq!(kept.send_filter_process_names, vec!["eurotrucks2.exe".to_owned()]);
    assert_eq!(kept.toggles, toggles());
    assert!(!initial_send_filter_allowed(kept.send_filter_mode));
}

#[test]
fn stored_session_is_restored_at_next_start() {
    let (input, output, passthrough) = configured();
    let mut runtime = RuntimeConfig::default();
    runtime.persist_session_settings = true;
    let session = restored_session(&runtime, &input, &output, &passthrough, toggles());

    let mut input2 = InputConfig::default();
    let mut output2 = OutputConfig::default();
    let mut passthrough2 = VmcOscPassthroughConfig::default();
    let mut toggles2 = SessionToggles {
        spike_rejection_enabled: false,
        invert_output_yaw: false,
        invert_output_pitch: false,
        output_easing_enabled: true,
    };
    assert!(!store_session(false, &session, &mut input2, &mut output2, &mut passthrough2, &mut toggles2));
    assert_eq!(input2.source, InputSource::IfacialmocapUdp);

    assert!(store_session(true, &session, &mut input2, &mut output2, &mut passthrough2, &mut toggles2));
    assert_eq!(input2.host, "127.0.0.1");
    let again = restored_session(&runtime, &input2, &output2, &passthrough2, toggles2);
    assert_eq!(again.input_source, session.input_source);
    assert_eq!(again.vmc_osc_port, session.vmc_osc_port);
    assert_eq!(again.passthrough_targets, session.passthrough_targets);
    assert_eq!(again.output_backend, session.output_backend);
    assert_eq!(again.output_enabled, session.output_enabled);
    assert_eq!(again.send_filter_mode, session.send_filter_mode);
    assert_eq!(again.send_filter_process_names, session.send_filter_process_names);
    assert_eq!(again.toggles, session.toggles);
}

#[test]
fn runtime_preferences_round_trip() {
    let mut runtime = RuntimeConfig::default();
    let mut prefs = runtime_preferences(&runtime);
    assert_eq!(prefs.clutch_hotkey, "Ctrl+Shift+E");
    prefs.clutch_hotkey = "F9".to_owned();
    prefs.persist_session_settings = true;
    store_runtime_preferences(&prefs, &mut runtime);
    assert_eq!(runtime.hotkey_toggle, "F9");
    assert!(runtime.persist_session_settings);
    assert_eq!(runtime.hotkey_recalibrate, "Ctrl+Shift+R");
}

#[test]
fn hotkey_and_port_validation() {
    assert_eq!(validate_clutch_hotkey("  Ctrl+F1 "), Ok("Ctrl+F1".to_owned()));
    assert_eq!(validate_clutch_hotkey(" \t "), Err("hotkey must not be empty".to_owned()));
    assert_eq!(validate_vmc_osc_port(39539), Ok(39539));
    assert_eq!(validate_vmc_osc_port(0), Err("port must be in range 1-65535".to_owned()));
}

fn selection(source: InputSource, port: u16, targets: &[&str]) -> InputSelection {
    InputSelection {
        source,
        vmc_osc_port: port,
        passthrough_enabled: false,
        passthrough_mode: VmcOscPassthroughMode::RawUdpForward,
        passthrough_targets: targets.iter().map(|t| t.to_string()).collect(),
    }
}

#[test]
fn reconnect_follows_source_and_vmc_settings() {
    let udp = selection(InputSource::IfacialmocapUdp, 39539, &[]);
    let udp_other_port = selection(InputSource::IfacialmocapUdp, 40000, &["a:1"]);
    assert!(!input_needs_reconnect(&udp, &udp_other_port));
    let tcp = selection(InputSource::IfacialmocapTcp, 39539, &[]);
    assert!(input_needs_reconnect(&udp, &tcp));

    let vmc = selection(InputSource::VmcOsc, 39539, &["a:1"]);
    assert!(!input_needs_reconnect(&vmc, &selection(InputSource::VmcOsc, 39539, &["a:1"])));
    assert!(input_needs_reconnect(&vmc, &selection(InputSource::VmcOsc, 39540, &["a:1"])));
    assert!(input_needs_reconnect(&vmc, &selection(InputSource::VmcOsc, 39539, &["a:2"])));
    let mut enabled = selection(InputSource::VmcOsc, 39539, &["a:1"]);
    enabled.passthrough_enabled = true;
    assert!(input_needs_reconnect(&vmc, &enabled));
}

#[test]
fn string_lists_and_send_filters_compare_by_content() {
    assert!(same_strings(&vec!["a".to_owned(), "b".to_owned()], &vec!["a".to_owned(), "b".to_owned()]));
    assert!(!same_strings(&vec!["a".to_owned()], &vec!["a".to_owned(), "b".to_owned()]));
    let a = OutputSendFilterConfig::default();
    let mut b = OutputSendFilterConfig::default();
    assert!(!send_filter_changed(&a, &b));
    b.process_names.push("x.exe".to_owned());
    assert!(send_filter_changed(&a, &b));
}

#[test]
fn liveness_and_timers() {
    assert!(output_live(true, false, true));
    assert!(!output_live(true, true, true));
    assert!(!output_live(true, false, false));
    assert!(!output_live(false, false, true));
    assert!(reconnect_due(false, 1000));
    assert!(!reconnect_due(false, 999));
    assert!(!reconnect_due(true, 5000));
    assert!(input_live(true, 999));
    assert!(!input_live(true, 1000));
    assert!(!input_live(false, 0));
    assert!(keeps_idle_streaming(OutputBackendKind::Ets2));
    assert!(!keeps_idle_streaming(OutputBackendKind::Touch));
}

#[test]
fn paused_turn_sends_one_neutral_frame() {
    let first = plan_tick(TickInput::Paused, true, true, 10, OutputBackendKind::Mouse, false);
    assert_eq!(first.output, OutputStep::Neutral);
    assert_eq!(first.snapshot, SnapshotStep::Metadata);
    assert!(first.forced_idle_output);
    assert!(first.input_connected);
    let second = plan_tick(TickInput::Paused, true, true, 10, OutputBackendKind::Mouse, first.forced_idle_output);
    assert_eq!(second.output, OutputStep::Nothing);
}

#[test]
fn frame_turn_sends_frame_when_live() {
    let plan = plan_tick(TickInput::Frame, true, false, 5000, OutputBackendKind::Keyboard, true);
    assert_eq!(plan.output, OutputStep::Frame);
    assert_eq!(plan.snapshot, SnapshotStep::Frame);
    assert!(plan.input_connected);
    assert!(!plan.forced_idle_output);
    let plan = plan_tick(TickInput::Frame, false, true, 0, OutputBackendKind::Keyboard, false);
    assert_eq!(plan.output, OutputStep::Nothing);
}

#[test]
fn idle_turns_depend_on_backend() {
    let early = plan_tick(TickInput::NoFrame, true, true, 100, OutputBackendKind::Mouse, false);
    assert_eq!(early.output, OutputStep::Nothing);
    assert_eq!(early.snapshot, SnapshotStep::Metadata);
    assert!(!early.report_idle_diagnostic);

    let idle = plan_tick(TickInput::NoFrame, true, true, 1500, OutputBackendKind::Mouse, false);
    assert_eq!(idle.output, OutputStep::Neutral);
    assert_eq!(idle.snapshot, SnapshotStep::Neutral);
    assert!(idle.report_idle_diagnostic);
    assert!(!idle.input_connected);
    assert!(idle.forced_idle_output);
    let later = plan_tick(TickInput::NoFrame, true, true, 1600, OutputBackendKind::Mouse, true);
    assert_eq!(later.output, OutputStep::Nothing);

    let ets2 = plan_tick(TickInput::NoFrame, true, true, 300, OutputBackendKind::Ets2, true);
    assert_eq!(ets2.output, OutputStep::Neutral);
    assert!(!ets2.forced_idle_output);
}

#[test]
fn cli_turns_send_idle_frame_once() {
    assert_eq!(plan_cli_tick(true, true, 0, true), (OutputStep::Frame, false));
    assert_eq!(plan_cli_tick(false, true, 249, false), (OutputStep::Nothing, false));
    assert_eq!(plan_cli_tick(false, true, 250, false), (OutputStep::Neutral, true));
    assert_eq!(plan_cli_tick(false, true, 900, true), (OutputStep::Nothing, true));
    assert_eq!(plan_cli_tick(false, false, 900, false), (OutputStep::Nothing, true));
    assert!(capture_calibration_due(true, true, false, true));
    assert!(!capture_calibration_due(true, true, true, true));
    assert!(!capture_calibration_due(true, false, false, true));
}

#[test]
fn filter_snapshot_falls_back_to_mode() {
    let filter = OutputSendFilterConfig {
        mode: OutputSendFilterMode::ForegroundProcess,
        process_names: vec!["amtrucks.exe".to_owned()],
    };
    let snap = output_filter_snapshot(&filter, None);
    assert!(!snap.allowed);
    assert!(snap.active_process_name.is_none());
    assert_eq!(snap.process_names, vec!["amtrucks.exe".to_owned()]);
    let snap = output_filter_snapshot(
        &filter,
        Some(SendFilterStatus { allowed: true, active_process_name: Some("amtrucks.exe".to_owned()) }),
    );
    assert!(snap.allowed);
    assert_eq!(snap.active_process_name.as_deref(), Some("amtrucks.exe"));
    assert!(output_filter_snapshot(&OutputSendFilterConfig::default(), None).allowed);
}

#[test]
fn receivers_follow_the_selected_source() {
    let (mut input, _, passthrough) = configured();
    input.host = "192.168.0.5".to_owned();
    match receiver_setup(&input, &passthrough, InputSource::IfacialmocapTcp) {
        ReceiverSetup::IfacialMocap(o) => {
            assert!(o.use_tcp);
            assert_eq!(o.host, "192.168.0.5");
            assert_eq!(o.tcp_port, input.tcp_port);
        },
        _ => panic!("expected iFacialMocap"),
    }
    match receiver_setup(&input, &passthrough, InputSource::VmcOsc) {
        ReceiverSetup::VmcOsc(o) => {
            assert_eq!(o.udp_port, 40000);
            assert!(o.passthrough.enabled);
            assert_eq!(o.passthrough.targets, vec!["127.0.0.1:39540".to_owned()]);
        },
        _ => panic!("expected VMC/OSC"),
    }
}
