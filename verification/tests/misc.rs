use unvet::clock::{millis_timestamp, now_millis};
use unvet::config::{
    mapping_for, ClutchHotkeyMode, InputConfig, InputSource, MappingBlendPreset, MappingCurvePreset, MappingProfile,
    OutputBackendKind, OutputConfig, RuntimeConfig, VmcOscPassthroughConfig,
};
use unvet::errors::AppError;
use unvet::paths::{default_config_path, workspace_root};
use unvet::process_filter::{normalize_process_name, sanitize_process_names};
use unvet::state::{PipelineState, TrackingState};

#[test]
fn effective_mapping_uses_global_by_default() {
    let global = 1.4f32;
    let ets2 = 0.5f32;
    let ats = 0.9f32;
    let effective = mapping_for(MappingProfile::default(), &ets2, &ats).copied().unwrap_or(global);
    assert!((effective - 1.4).abs() < 0.001);
}

#[test]
fn effective_mapping_can_select_per_game_profile() {
    let global = 0.5f32;
    let ets2 = 1.7f32;
    let ats = 0.9f32;
    let effective = mapping_for(MappingProfile::Ets2, &ets2, &ats).copied().unwrap_or(global);
    assert!((effective - 1.7).abs() < 0.001);
    assert_eq!(mapping_for(MappingProfile::Ats, &ets2, &ats).copied(), Some(0.9));
}

#[test]
fn configuration_defaults() {
    let input = InputConfig::default();
    assert_eq!(input.source, InputSource::IfacialmocapUdp);
    assert_eq!(input.host, "127.0.0.1");
    assert_eq!((input.udp_port, input.tcp_port, input.vmc_osc_port), (49983, 49986, 39539));
    let output = OutputConfig::default();
    assert_eq!(output.backend, OutputBackendKind::Ets2);
    assert!(output.enabled);
    let runtime = RuntimeConfig::default();
    assert_eq!(runtime.hotkey_toggle, "Ctrl+Shift+E");
    assert_eq!(runtime.clutch_hotkey_mode, ClutchHotkeyMode::Toggle);
    assert!(!runtime.persist_session_settings);
    assert!(!VmcOscPassthroughConfig::default().enabled);
    assert_eq!(MappingCurvePreset::default(), MappingCurvePreset::Linear);
    assert_eq!(MappingBlendPreset::default(), MappingBlendPreset::Custom);
    assert_eq!(TrackingState::default(), TrackingState::Inactive);
    assert_eq!(PipelineState::default(), PipelineState::Stopped);
}

#[test]
fn error_messages_name_their_kind() {
    assert_eq!(AppError::Config("x".to_owned()).message(), "configuration error: x");
    assert_eq!(AppError::InvalidState("y".to_owned()).message(), "invalid state: y");
    assert_eq!(AppError::InvalidData("z".to_owned()).message(), "invalid data: z");
    let io = AppError::Io(std::io::Error::new(std::io::ErrorKind::Other, "disk"));
    assert!(io.message().starts_with("I/O error: "));
}

#[test]
fn clock_and_paths() {
    assert_eq!(millis_timestamp(None), 0);
    assert_eq!(millis_timestamp(Some(1234)), 1234);
    assert_eq!(millis_timestamp(Some((1u128 << 64) + 5)), 5);
    assert!(now_millis() > 1_600_000_000_000);
    assert_eq!(default_config_path(), "config/unvet.toml");
    assert_eq!(workspace_root(""), None);
    assert_eq!(workspace_root("/repo/xtask"), Some("/repo".to_owned()));
    assert_eq!(workspace_root("/xtask"), Some("/".to_owned()));
    assert_eq!(workspace_root("work/repo/xtask"), Some("work/repo".to_owned()));
    assert_eq!(workspace_root("xtask"), Some(String::new()));
}

#[test]
fn process_names_are_normalized_sorted_and_unique() {
    assert_eq!(normalize_process_name("  C:/Games/SCS/EuroTrucks2.exe "), Some("eurotrucks2.exe".to_owned()));
    assert_eq!(normalize_process_name("   "), None);
    assert_eq!(normalize_process_name("C:\\Games\\"), None);
    assert_eq!(
        sanitize_process_names(vec![
            "b.exe".to_owned(),
            "A.EXE".to_owned(),
            "".to_owned(),
            "x\\b.exe".to_owned(),
        ]),
        vec!["a.exe".to_owned(), "b.exe".to_owned()]
    );
}
