//! The configuration schema: sources, backends, presets and the plain
//! settings groups, with their defaults.
use vstd::prelude::*;

verus! {

/// Where tracking input comes from.
#[derive(Debug, Clone, Copy, PartialEq, Eq, Structural)]
pub enum InputSource {
    IfacialmocapUdp,
    IfacialmocapTcp,
    VmcOsc,
}

impl Default for InputSource {
    fn default() -> (r: Self)
        ensures
            r == InputSource::IfacialmocapUdp,
    {
        InputSource::IfacialmocapUdp
    }
}

/// Which output backend receives the look direction.
#[derive(Debug, Clone, Copy, PartialEq, Eq, Structural)]
pub enum OutputBackendKind {
    Ets2,
    Mouse,
    Keyboard,
    Touch,
}

impl Default for OutputBackendKind {
    fn default() -> (r: Self)
        ensures
            r == OutputBackendKind::Ets2,
    {
        OutputBackendKind::Ets2
    }
}

/// The response curve applied after the deadzone.
#[derive(Debug, Clone, Copy, PartialEq, Eq, Structural)]
pub enum MappingCurvePreset {
    Linear,
    Smooth,
    Aggressive,
}

impl Default for MappingCurvePreset {
    fn default() -> (r: Self)
        ensures
            r == MappingCurvePreset::Linear,
    {
        MappingCurvePreset::Linear
    }
}

/// How eye and head angles are blended.
#[derive(Debug, Clone, Copy, PartialEq, Eq, Structural)]
pub enum MappingBlendPreset {
    Custom,
    Balanced,
    EyeDominant,
    HeadDominant,
}

impl Default for MappingBlendPreset {
    fn default() -> (r: Self)
        ensures
            r == MappingBlendPreset::Custom,
    {
        MappingBlendPreset::Custom
    }
}

/// Which mapping profile is in effect.
#[derive(Debug, Clone, Copy, PartialEq, Eq, Structural)]
pub enum MappingProfile {
    Global,
    Ets2,
    Ats,
}

impl Default for MappingProfile {
    fn default() -> (r: Self)
        ensures
            r == MappingProfile::Global,
    {
        MappingProfile::Global
    }
}

/// Whether output is gated on the foreground process.
#[derive(Debug, Clone, Copy, PartialEq, Eq, Structural)]
pub enum OutputSendFilterMode {
    Unrestricted,
    ForegroundProcess,
}

impl Default for OutputSendFilterMode {
    fn default() -> (r: Self)
        ensures
            r == OutputSendFilterMode::Unrestricted,
    {
        OutputSendFilterMode::Unrestricted
    }
}

/// The send filter: a mode and the process names output is allowed for.
#[derive(Debug, Clone)]
pub struct OutputSendFilterConfig {
    pub mode: OutputSendFilterMode,
    pub process_names: Vec<String>,
}

impl Default for OutputSendFilterConfig {
    fn default() -> (r: Self)
        ensures
            r.mode == OutputSendFilterMode::Unrestricted,
            r.process_names@.len() == 0,
    {
        OutputSendFilterConfig { mode: OutputSendFilterMode::Unrestricted, process_names: Vec::new() }
    }
}

/// How VMC/OSC packets are forwarded to other programs.
#[derive(Debug, Clone, Copy, PartialEq, Eq, Structural)]
pub enum VmcOscPassthroughMode {
    RawUdpForward,
}

impl Default for VmcOscPassthroughMode {
    fn default() -> (r: Self)
        ensures
            r == VmcOscPassthroughMode::RawUdpForward,
    {
        VmcOscPassthroughMode::RawUdpForward
    }
}

/// Forwarding of received VMC/OSC packets to other programs.
#[derive(Debug, Clone)]
pub struct VmcOscPassthroughConfig {
    pub enabled: bool,
    pub targets: Vec<String>,
    pub mode: VmcOscPassthroughMode,
}

impl Default for VmcOscPassthroughConfig {
    fn default() -> (r: Self)
        ensures
            !r.enabled,
            r.targets@.len() == 0,
            r.mode == VmcOscPassthroughMode::RawUdpForward,
    {
        VmcOscPassthroughConfig {
            enabled: false,
            targets: Vec::new(),
            mode: VmcOscPassthroughMode::RawUdpForward,
        }
    }
}

/// The default iFacialMocap UDP port.
pub const IFACIALMOCAP_UDP_PORT: u16 = 49983;

/// The default iFacialMocap TCP port.
pub const IFACIALMOCAP_TCP_PORT: u16 = 49986;

/// The default VMC/OSC UDP port.
pub const VMC_OSC_DEFAULT_PORT: u16 = 39539;

/// Input settings.
#[derive(Debug, Clone)]
pub struct InputConfig {
    pub source: InputSource,
    pub host: String,
    pub udp_port: u16,
    pub tcp_port: u16,
    pub vmc_osc_port: u16,
}

impl Default for InputConfig {
    fn default() -> (r: Self)
        ensures
            r.source == InputSource::IfacialmocapUdp,
            r.host@ == "127.0.0.1"@,
            r.udp_port == IFACIALMOCAP_UDP_PORT,
            r.tcp_port == IFACIALMOCAP_TCP_PORT,
            r.vmc_osc_port == VMC_OSC_DEFAULT_PORT,
    {
        InputConfig {
            source: InputSource::IfacialmocapUdp,
            host: String::from_str("127.0.0.1"),
            udp_port: IFACIALMOCAP_UDP_PORT,
            tcp_port: IFACIALMOCAP_TCP_PORT,
            vmc_osc_port: VMC_OSC_DEFAULT_PORT,
        }
    }
}

/// Output settings.
#[derive(Debug, Clone)]
pub struct OutputConfig {
    pub backend: OutputBackendKind,
    pub enabled: bool,
    pub send_filter: OutputSendFilterConfig,
}

impl Default for OutputConfig {
    fn default() -> (r: Self)
        ensures
            r.backend == OutputBackendKind::Ets2,
            r.enabled,
            r.send_filter.mode == OutputSendFilterMode::Unrestricted,
            r.send_filter.process_names@.len() == 0,
    {
        OutputConfig {
            backend: OutputBackendKind::Ets2,
            enabled: true,
            send_filter: OutputSendFilterConfig::default(),
        }
    }
}

/// How the output clutch hotkey behaves.
#[derive(Debug, Clone, Copy, PartialEq, Eq, Structural)]
pub enum ClutchHotkeyMode {
    Toggle,
    Hold,
}

impl Default for ClutchHotkeyMode {
    fn default() -> (r: Self)
        ensures
            r == ClutchHotkeyMode::Toggle,
    {
        ClutchHotkeyMode::Toggle
    }
}

/// Runtime behaviour settings.
#[derive(Debug, Clone)]
pub struct RuntimeConfig {
    pub pause_on_unfocused: bool,
    pub hotkey_toggle: String,
    pub hotkey_recalibrate: String,
    pub clutch_hotkey_mode: ClutchHotkeyMode,
    pub persist_session_settings: bool,
}

impl Default for RuntimeConfig {
    fn default() -> (r: Self)
        ensures
            r.pause_on_unfocused,
            r.hotkey_toggle@ == "Ctrl+Shift+E"@,
            r.hotkey_recalibrate@ == "Ctrl+Shift+R"@,
            r.clutch_hotkey_mode == ClutchHotkeyMode::Toggle,
            !r.persist_session_settings,
    {
        RuntimeConfig {
            pause_on_unfocused: true,
            hotkey_toggle: String::from_str("Ctrl+Shift+E"),
            hotkey_recalibrate: String::from_str("Ctrl+Shift+R"),
            clutch_hotkey_mode: ClutchHotkeyMode::Toggle,
            persist_session_settings: false,
        }
    }
}

/// Selects the per-game entry of a profile pair: `None` for the global
/// profile, the ETS2 entry or the ATS entry otherwise.
pub fn mapping_for<'a, T>(profile: MappingProfile, ets2: &'a T, ats: &'a T) -> (r: Option<&'a T>)
    ensures
        r == match profile {
            MappingProfile::Global => None,
            MappingProfile::Ets2 => Some(ets2),
            MappingProfile::Ats => Some(ats),
        },
{
    match profile {
        MappingProfile::Global => None,
        MappingProfile::Ets2 => Some(ets2),
        MappingProfile::Ats => Some(ats),
    }
}

} // verus!
