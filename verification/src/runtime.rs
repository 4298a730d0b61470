//! The decisions of the desktop runtime: which session settings are
//! restored at start and written back, when the input must be reconnected,
//! when output is live, and what each turn of the polling loop does with
//! the output and the status snapshot.
//!
//! The loop itself (sleeping, polling receivers, driving backends) runs
//! outside the library; it hands each turn's facts to [`plan_tick`] and
//! carries out the plan.
use vstd::prelude::*;
use crate::config::{
    ClutchHotkeyMode, InputConfig, InputSource, OutputBackendKind, OutputConfig,
    OutputSendFilterConfig, OutputSendFilterMode, RuntimeConfig, VmcOscPassthroughConfig,
    VmcOscPassthroughMode,
};
use crate::passthrough::views_of;
use crate::ifacialmocap;
use crate::vmc;
use crate::process_filter::SendFilterStatus;
use crate::text::{chars_of, string_from_chars, trim, trim_chars};

verus! {

/// Pause between two turns of the runtime loop, in milliseconds.
pub const POLL_INTERVAL_MS: u64 = 8;

/// Time without frames after which neutral output is sent, in milliseconds.
pub const IDLE_TIMEOUT_MS: u64 = 250;

/// Time since the last frame within which the input counts as live, in
/// milliseconds.
pub const INPUT_LIVE_TIMEOUT_MS: u64 = 1000;

/// Time between two reconnection attempts of an inactive input, in
/// milliseconds.
pub const RECONNECT_INTERVAL_MS: u64 = 1000;

/// The switches of the session that live in the mapping and input-filter
/// sections of the configuration.
#[derive(Debug, Clone, Copy, PartialEq, Eq, Structural)]
pub struct SessionToggles {
    pub spike_rejection_enabled: bool,
    pub invert_output_yaw: bool,
    pub invert_output_pitch: bool,
    pub output_easing_enabled: bool,
}

/// The switches of a fresh session.
pub open spec fn default_toggles() -> SessionToggles {
    SessionToggles {
        spike_rejection_enabled: false,
        invert_output_yaw: false,
        invert_output_pitch: false,
        output_easing_enabled: true,
    }
}

/// The settings a session can change and the configuration can keep
/// (the continuous gains and easing factor are kept alongside by the
/// caller).
#[derive(Debug, Clone)]
pub struct SessionSettings {
    pub output_enabled: bool,
    pub input_source: InputSource,
    pub vmc_osc_port: u16,
    pub passthrough_enabled: bool,
    pub passthrough_mode: VmcOscPassthroughMode,
    pub passthrough_targets: Vec<String>,
    pub output_backend: OutputBackendKind,
    pub send_filter_mode: OutputSendFilterMode,
    pub send_filter_process_names: Vec<String>,
    pub toggles: SessionToggles,
}

/// The settings of a session, with the strings as character sequences.
pub struct SessionView {
    pub output_enabled: bool,
    pub input_source: InputSource,
    pub vmc_osc_port: u16,
    pub passthrough_enabled: bool,
    pub passthrough_mode: VmcOscPassthroughMode,
    pub passthrough_targets: Seq<Seq<char>>,
    pub output_backend: OutputBackendKind,
    pub send_filter_mode: OutputSendFilterMode,
    pub send_filter_process_names: Seq<Seq<char>>,
    pub toggles: SessionToggles,
}

impl View for SessionSettings {
    type V = SessionView;

    open spec fn view(&self) -> SessionView {
        SessionView {
            output_enabled: self.output_enabled,
            input_source: self.input_source,
            vmc_osc_port: self.vmc_osc_port,
            passthrough_enabled: self.passthrough_enabled,
            passthrough_mode: self.passthrough_mode,
            passthrough_targets: views_of(self.passthrough_targets@),
            output_backend: self.output_backend,
            send_filter_mode: self.send_filter_mode,
            send_filter_process_names: views_of(self.send_filter_process_names@),
            toggles: self.toggles,
        }
    }
}

/// The session settings a configuration holds.
pub open spec fn config_session(
    input: InputConfig,
    output: OutputConfig,
    passthrough: VmcOscPassthroughConfig,
    toggles: SessionToggles,
) -> SessionView {
    SessionView {
        output_enabled: output.enabled,
        input_source: input.source,
        vmc_osc_port: input.vmc_osc_port,
        passthrough_enabled: passthrough.enabled,
        passthrough_mode: passthrough.mode,
        passthrough_targets: views_of(passthrough.targets@),
        output_backend: output.backend,
        send_filter_mode: output.send_filter.mode,
        send_filter_process_names: views_of(output.send_filter.process_names@),
        toggles,
    }
}

/// The settings of a fresh session; the VMC/OSC port and the passthrough
/// mode always come from the configuration.
pub open spec fn fresh_session(vmc_osc_port: u16, passthrough_mode: VmcOscPassthroughMode) -> SessionView {
    SessionView {
        output_enabled: true,
        input_source: InputSource::IfacialmocapUdp,
        vmc_osc_port,
        passthrough_enabled: false,
        passthrough_mode,
        passthrough_targets: Seq::empty(),
        output_backend: OutputBackendKind::Ets2,
        send_filter_mode: OutputSendFilterMode::Unrestricted,
        send_filter_process_names: Seq::empty(),
        toggles: default_toggles(),
    }
}

/// The session a start restores: the configuration's when session
/// persistence is enabled, a fresh one otherwise.
pub open spec fn restore_session(persist: bool, configured: SessionView) -> SessionView {
    if persist {
        configured
    } else {
        fresh_session(configured.vmc_osc_port, configured.passthrough_mode)
    }
}

fn clone_strings(v: &Vec<String>) -> (out: Vec<String>)
    ensures
        views_of(out@) == views_of(v@),
{
    let mut out: Vec<String> = Vec::new();
    let mut i: usize = 0;
    while i < v.len()
        invariant
            i <= v@.len(),
            out@.len() == i,
            forall|k: int| 0 <= k < i ==> #[trigger] out@[k]@ == v@[k]@,
        decreases v.len() - i,
    {
        out.push(v[i].clone());
        i = i + 1;
    }
    assert(views_of(out@) =~= views_of(v@));
    out
}

/// The session settings restored at start from the configuration.
pub fn restored_session(
    runtime: &RuntimeConfig,
    input: &InputConfig,
    output: &OutputConfig,
    passthrough: &VmcOscPassthroughConfig,
    toggles: SessionToggles,
) -> (s: SessionSettings)
    ensures
        s@ == restore_session(
            runtime.persist_session_settings,
            config_session(*input, *output, *passthrough, toggles),
        ),
{
    if runtime.persist_session_settings {
        SessionSettings {
            output_enabled: output.enabled,
            input_source: input.source,
            vmc_osc_port: input.vmc_osc_port,
            passthrough_enabled: passthrough.enabled,
            passthrough_mode: passthrough.mode,
            passthrough_targets: clone_strings(&passthrough.targets),
            output_backend: output.backend,
            send_filter_mode: output.send_filter.mode,
            send_filter_process_names: clone_strings(&output.send_filter.process_names),
            toggles,
        }
    } else {
        let s = SessionSettings {
            output_enabled: true,
            input_source: InputSource::IfacialmocapUdp,
            vmc_osc_port: input.vmc_osc_port,
            passthrough_enabled: false,
            passthrough_mode: passthrough.mode,
            passthrough_targets: Vec::new(),
            output_backend: OutputBackendKind::Ets2,
            send_filter_mode: OutputSendFilterMode::Unrestricted,
            send_filter_process_names: Vec::new(),
            toggles: SessionToggles {
                spike_rejection_enabled: false,
                invert_output_yaw: false,
                invert_output_pitch: false,
                output_easing_enabled: true,
            },
        };
        assert(views_of(s.passthrough_targets@) =~= Seq::<Seq<char>>::empty());
        assert(views_of(s.send_filter_process_names@) =~= Seq::<Seq<char>>::empty());
        s
    }
}

/// Writes the session into the configuration when session persistence is
/// enabled; returns whether it did (and the configuration must be saved).
/// Settings outside the session are left as they were.
pub fn store_session(
    persist: bool,
    session: &SessionSettings,
    input: &mut InputConfig,
    output: &mut OutputConfig,
    passthrough: &mut VmcOscPassthroughConfig,
    toggles: &mut SessionToggles,
) -> (written: bool)
    ensures
        written == persist,
        persist ==> config_session(*final(input), *final(output), *final(passthrough), *final(toggles))
            == session@,
        !persist ==> *final(toggles) == *old(toggles) && config_session(
            *final(input),
            *final(output),
            *final(passthrough),
            *final(toggles),
        ) == config_session(*old(input), *old(output), *old(passthrough), *old(toggles)),
        final(input).host@ == old(input).host@,
        final(input).udp_port == old(input).udp_port,
        final(input).tcp_port == old(input).tcp_port,
{
    if !persist {
        return false;
    }
    input.source = session.input_source;
    input.vmc_osc_port = session.vmc_osc_port;
    passthrough.enabled = session.passthrough_enabled;
    passthrough.mode = session.passthrough_mode;
    passthrough.targets = clone_strings(&session.passthrough_targets);
    output.backend = session.output_backend;
    output.enabled = session.output_enabled;
    output.send_filter = OutputSendFilterConfig {
        mode: session.send_filter_mode,
        process_names: clone_strings(&session.send_filter_process_names),
    };
    *toggles = session.toggles;
    true
}

/// A session written back is restored unchanged at the next start, as
/// long as session persistence stays enabled.
pub proof fn law_stored_session_is_restored(
    session: SessionView,
    input: InputConfig,
    output: OutputConfig,
    passthrough: VmcOscPassthroughConfig,
    toggles: SessionToggles,
)
    requires
        config_session(input, output, passthrough, toggles) == session,
    ensures
        restore_session(true, config_session(input, output, passthrough, toggles)) == session,
{
}

/// With session persistence disabled, every start begins with the same
/// fresh session, whatever the configuration's session part holds.
pub proof fn law_fresh_start_ignores_session(a: SessionView, b: SessionView)
    requires
        a.vmc_osc_port == b.vmc_osc_port,
        a.passthrough_mode == b.passthrough_mode,
    ensures
        restore_session(false, a) == restore_session(false, b),
        restore_session(false, a).output_enabled,
        restore_session(false, a).send_filter_mode == OutputSendFilterMode::Unrestricted,
{
}

/// Whether output may be sent given the session's send filter mode before
/// the foreground process was ever checked.
pub fn initial_send_filter_allowed(mode: OutputSendFilterMode) -> (b: bool)
    ensures
        b == (mode == OutputSendFilterMode::Unrestricted),
{
    match mode {
        OutputSendFilterMode::Unrestricted => true,
        OutputSendFilterMode::ForegroundProcess => false,
    }
}

/// The preferences kept whether or not the session is persisted.
#[derive(Debug, Clone)]
pub struct RuntimePreferences {
    pub persist_session_settings: bool,
    pub clutch_hotkey: String,
    pub clutch_hotkey_mode: ClutchHotkeyMode,
}

/// The preferences a configuration holds.
pub fn runtime_preferences(runtime: &RuntimeConfig) -> (p: RuntimePreferences)
    ensures
        p.persist_session_settings == runtime.persist_session_settings,
        p.clutch_hotkey@ == runtime.hotkey_toggle@,
        p.clutch_hotkey_mode == runtime.clutch_hotkey_mode,
{
    RuntimePreferences {
        persist_session_settings: runtime.persist_session_settings,
        clutch_hotkey: runtime.hotkey_toggle.clone(),
        clutch_hotkey_mode: runtime.clutch_hotkey_mode,
    }
}

/// Writes the preferences into the runtime section of the configuration;
/// the other runtime settings are left as they were.
pub fn store_runtime_preferences(prefs: &RuntimePreferences, runtime: &mut RuntimeConfig)
    ensures
        final(runtime).persist_session_settings == prefs.persist_session_settings,
        final(runtime).hotkey_toggle@ == prefs.clutch_hotkey@,
        final(runtime).clutch_hotkey_mode == prefs.clutch_hotkey_mode,
        final(runtime).pause_on_unfocused == old(runtime).pause_on_unfocused,
        final(runtime).hotkey_recalibrate@ == old(runtime).hotkey_recalibrate@,
{
    runtime.persist_session_settings = prefs.persist_session_settings;
    runtime.hotkey_toggle = prefs.clutch_hotkey.clone();
    runtime.clutch_hotkey_mode = prefs.clutch_hotkey_mode;
}

/// The clutch hotkey a user entered, trimmed; empty input is refused.
pub fn validate_clutch_hotkey(hotkey: &str) -> (r: Result<String, String>)
    ensures
        trim(hotkey@).len() == 0 <==> r is Err,
        r matches Ok(h) ==> h@ == trim(hotkey@),
        r matches Err(e) ==> e@ == "hotkey must not be empty"@,
{
    let trimmed = trim_chars(&chars_of(hotkey));
    if trimmed.len() == 0 {
        Err(String::from_str("hotkey must not be empty"))
    } else {
        Ok(string_from_chars(&trimmed))
    }
}

/// A VMC/OSC port a user entered; port 0 is refused.
pub fn validate_vmc_osc_port(port: u16) -> (r: Result<u16, String>)
    ensures
        port == 0 <==> r is Err,
        r matches Ok(p) ==> p == port,
        r matches Err(e) ==> e@ == "port must be in range 1-65535"@,
{
    if port == 0 {
        Err(String::from_str("port must be in range 1-65535"))
    } else {
        Ok(port)
    }
}

/// The input settings that decide how the input receiver is built.
#[derive(Debug, Clone)]
pub struct InputSelection {
    pub source: InputSource,
    pub vmc_osc_port: u16,
    pub passthrough_enabled: bool,
    pub passthrough_mode: VmcOscPassthroughMode,
    pub passthrough_targets: Vec<String>,
}

/// The receiver must be rebuilt: the source changed, or the source is
/// VMC/OSC and one of its settings changed.
pub open spec fn spec_input_needs_reconnect(active: InputSelection, desired: InputSelection) -> bool {
    ||| desired.source != active.source
    ||| (active.source == InputSource::VmcOsc && (desired.vmc_osc_port != active.vmc_osc_port
        || desired.passthrough_enabled != active.passthrough_enabled || desired.passthrough_mode
        != active.passthrough_mode || views_of(desired.passthrough_targets@) != views_of(
        active.passthrough_targets@,
    )))
}

/// Whether two string lists hold the same strings in the same order.
pub fn same_strings(a: &Vec<String>, b: &Vec<String>) -> (r: bool)
    ensures
        r == (views_of(a@) == views_of(b@)),
{
    if a.len() != b.len() {
        assert(views_of(a@).len() != views_of(b@).len());
        return false;
    }
    let mut i: usize = 0;
    while i < a.len()
        invariant
            a@.len() == b@.len(),
            i <= a@.len(),
            forall|k: int| 0 <= k < i ==> #[trigger] a@[k]@ == b@[k]@,
        decreases a.len() - i,
    {
        if a[i] != b[i] {
            assert(views_of(a@)[i as int] != views_of(b@)[i as int]);
            return false;
        }
        i = i + 1;
    }
    assert(views_of(a@) =~= views_of(b@));
    true
}

/// Whether the input receiver must be rebuilt to apply `desired`.
pub fn input_needs_reconnect(active: &InputSelection, desired: &InputSelection) -> (b: bool)
    ensures
        b == spec_input_needs_reconnect(*active, *desired),
{
    if desired.source != active.source {
        return true;
    }
    match active.source {
        InputSource::VmcOsc => {
            desired.vmc_osc_port != active.vmc_osc_port || desired.passthrough_enabled
                != active.passthrough_enabled || desired.passthrough_mode != active.passthrough_mode
                || !same_strings(&desired.passthrough_targets, &active.passthrough_targets)
        },
        _ => false,
    }
}

/// Whether two send filters differ.
pub fn send_filter_changed(active: &OutputSendFilterConfig, desired: &OutputSendFilterConfig) -> (b: bool)
    ensures
        b == (active.mode != desired.mode || views_of(active.process_names@) != views_of(
            desired.process_names@,
        )),
{
    active.mode != desired.mode || !same_strings(&active.process_names, &desired.process_names)
}

/// Output is live when it is enabled, not paused and the clutch is
/// engaged.
pub fn output_live(enabled: bool, paused: bool, clutch_engaged: bool) -> (b: bool)
    ensures
        b == (enabled && !paused && clutch_engaged),
{
    enabled && !paused && clutch_engaged
}

/// An inactive input is reconnected once the reconnection interval has
/// passed since the last attempt.
pub fn reconnect_due(receiver_active: bool, since_last_attempt_ms: u64) -> (b: bool)
    ensures
        b == (!receiver_active && since_last_attempt_ms >= RECONNECT_INTERVAL_MS),
{
    !receiver_active && since_last_attempt_ms >= RECONNECT_INTERVAL_MS
}

/// The input counts as live while its receiver is active and a frame came
/// recently.
pub fn input_live(receiver_active: bool, since_last_frame_ms: u64) -> (b: bool)
    ensures
        b == (receiver_active && since_last_frame_ms < INPUT_LIVE_TIMEOUT_MS),
{
    receiver_active && since_last_frame_ms < INPUT_LIVE_TIMEOUT_MS
}

/// The backends that keep receiving neutral frames while the input is
/// idle, rather than a single one.
pub fn keeps_idle_streaming(backend: OutputBackendKind) -> (b: bool)
    ensures
        b == (backend == OutputBackendKind::Ets2),
{
    match backend {
        OutputBackendKind::Ets2 => true,
        _ => false,
    }
}

/// What a turn of the loop found.
#[derive(Debug, Clone, Copy, PartialEq, Eq, Structural)]
pub enum TickInput {
    /// Tracking is paused; the input was not polled.
    Paused,
    /// The input yielded a frame.
    Frame,
    /// The input yielded nothing.
    NoFrame,
}

/// What is sent to the output layer in a turn.
#[derive(Debug, Clone, Copy, PartialEq, Eq, Structural)]
pub enum OutputStep {
    Nothing,
    Neutral,
    Frame,
}

/// What the status snapshot is refreshed with in a turn.
#[derive(Debug, Clone, Copy, PartialEq, Eq, Structural)]
pub enum SnapshotStep {
    /// Only the connection and settings fields.
    Metadata,
    /// The neutral frame, with the connection and settings fields.
    Neutral,
    /// The processed frame, with the connection and settings fields.
    Frame,
}

/// The plan of one turn.
#[derive(Debug, Clone, Copy, PartialEq, Eq, Structural)]
pub struct TickPlan {
    pub output: OutputStep,
    pub snapshot: SnapshotStep,
    /// The input-connected flag the snapshot shows.
    pub input_connected: bool,
    /// The receiver's idle diagnostic is to be reported.
    pub report_idle_diagnostic: bool,
    /// The idle output was sent and need not be repeated.
    pub forced_idle_output: bool,
}

/// The plan of a turn of the runtime loop.
///
/// Paused: one neutral frame is sent (when output is live) on entering the
/// pause, then only the status is refreshed. A frame: it is sent (when
/// output is live) and shown. No frame: an active receiver whose frames
/// stopped reports its diagnostic; once the idle timeout has passed, a
/// neutral frame is sent and shown, once, or on every turn for backends
/// that keep streaming while idle.
pub open spec fn spec_plan_tick(
    input: TickInput,
    live: bool,
    receiver_active: bool,
    since_last_frame_ms: u64,
    backend: OutputBackendKind,
    forced_idle_output: bool,
) -> TickPlan {
    let connected = receiver_active && since_last_frame_ms < INPUT_LIVE_TIMEOUT_MS;
    match input {
        TickInput::Paused => TickPlan {
            output: if !forced_idle_output && live {
                OutputStep::Neutral
            } else {
                OutputStep::Nothing
            },
            snapshot: SnapshotStep::Metadata,
            input_connected: connected,
            report_idle_diagnostic: false,
            forced_idle_output: true,
        },
        TickInput::Frame => TickPlan {
            output: if live {
                OutputStep::Frame
            } else {
                OutputStep::Nothing
            },
            snapshot: SnapshotStep::Frame,
            input_connected: true,
            report_idle_diagnostic: false,
            forced_idle_output: false,
        },
        TickInput::NoFrame => {
            let keep = backend == OutputBackendKind::Ets2;
            let idle = since_last_frame_ms >= IDLE_TIMEOUT_MS && (!forced_idle_output || keep);
            TickPlan {
                output: if idle && live {
                    OutputStep::Neutral
                } else {
                    OutputStep::Nothing
                },
                snapshot: if idle {
                    SnapshotStep::Neutral
                } else {
                    SnapshotStep::Metadata
                },
                input_connected: connected,
                report_idle_diagnostic: receiver_active && !connected,
                forced_idle_output: if idle {
                    !keep
                } else {
                    forced_idle_output
                },
            }
        },
    }
}

/// Plans a turn of the runtime loop from what the turn found; see
/// [`spec_plan_tick`].
pub fn plan_tick(
    input: TickInput,
    live: bool,
    receiver_active: bool,
    since_last_frame_ms: u64,
    backend: OutputBackendKind,
    forced_idle_output: bool,
) -> (plan: TickPlan)
    ensures
        plan == spec_plan_tick(input, live, receiver_active, since_last_frame_ms, backend, forced_idle_output),
{
    let connected = input_live(receiver_active, since_last_frame_ms);
    match input {
        TickInput::Paused => {
            let output = if !forced_idle_output && live {
                OutputStep::Neutral
            } else {
                OutputStep::Nothing
            };
            TickPlan {
                output,
                snapshot: SnapshotStep::Metadata,
                input_connected: connected,
                report_idle_diagnostic: false,
                forced_idle_output: true,
            }
        },
        TickInput::Frame => TickPlan {
            output: if live {
                OutputStep::Frame
            } else {
                OutputStep::Nothing
            },
            snapshot: SnapshotStep::Frame,
            input_connected: true,
            report_idle_diagnostic: false,
            forced_idle_output: false,
        },
        TickInput::NoFrame => {
            let keep = keeps_idle_streaming(backend);
            let idle = since_last_frame_ms >= IDLE_TIMEOUT_MS && (!forced_idle_output || keep);
            if idle {
                TickPlan {
                    output: if live {
                        OutputStep::Neutral
                    } else {
                        OutputStep::Nothing
                    },
                    snapshot: SnapshotStep::Neutral,
                    input_connected: connected,
                    report_idle_diagnostic: receiver_active && !connected,
                    forced_idle_output: !keep,
                }
            } else {
                TickPlan {
                    output: OutputStep::Nothing,
                    snapshot: SnapshotStep::Metadata,
                    input_connected: connected,
                    report_idle_diagnostic: receiver_active && !connected,
                    forced_idle_output,
                }
            }
        },
    }
}

/// Output never leaves the library while it is not live: no turn sends a
/// frame or a neutral frame when output is disabled, paused or declutched.
pub proof fn law_no_output_unless_live(
    input: TickInput,
    receiver_active: bool,
    since_last_frame_ms: u64,
    backend: OutputBackendKind,
    forced_idle_output: bool,
)
    ensures
        spec_plan_tick(input, false, receiver_active, since_last_frame_ms, backend, forced_idle_output).output
            == OutputStep::Nothing,
{
}

/// While paused or idle, a backend that does not keep streaming gets one
/// neutral frame and then nothing more until a frame arrives.
pub proof fn law_idle_neutral_sent_once(
    input: TickInput,
    live: bool,
    receiver_active: bool,
    since_last_frame_ms: u64,
    backend: OutputBackendKind,
)
    requires
        input != TickInput::Frame,
        backend != OutputBackendKind::Ets2,
    ensures
        spec_plan_tick(input, live, receiver_active, since_last_frame_ms, backend, true).output
            == OutputStep::Nothing,
        spec_plan_tick(input, live, receiver_active, since_last_frame_ms, backend, false).output
            != OutputStep::Nothing ==> spec_plan_tick(
            input,
            live,
            receiver_active,
            since_last_frame_ms,
            backend,
            false,
        ).forced_idle_output,
{
}

/// The send filter part of the status snapshot.
#[derive(Debug, Clone)]
pub struct OutputFilterSnapshot {
    pub mode: OutputSendFilterMode,
    pub process_names: Vec<String>,
    pub allowed: bool,
    pub active_process_name: Option<String>,
}

/// The send filter part of the status from the layer's filter and the
/// result of checking the foreground process; when the check failed
/// (`None`), output counts as allowed exactly in unrestricted mode.
pub fn output_filter_snapshot(filter: &OutputSendFilterConfig, status: Option<SendFilterStatus>) -> (s:
    OutputFilterSnapshot)
    ensures
        s.mode == filter.mode,
        views_of(s.process_names@) == views_of(filter.process_names@),
        match status {
            Some(st) => s.allowed == st.allowed && s.active_process_name == st.active_process_name,
            None => s.allowed == (filter.mode == OutputSendFilterMode::Unrestricted)
                && s.active_process_name is None,
        },
{
    match status {
        Some(st) => OutputFilterSnapshot {
            mode: filter.mode,
            process_names: clone_strings(&filter.process_names),
            allowed: st.allowed,
            active_process_name: st.active_process_name,
        },
        None => OutputFilterSnapshot {
            mode: filter.mode,
            process_names: clone_strings(&filter.process_names),
            allowed: initial_send_filter_allowed(filter.mode),
            active_process_name: None,
        },
    }
}

/// How the input receiver of a source is set up.
#[derive(Debug, Clone)]
pub enum ReceiverSetup {
    IfacialMocap(ifacialmocap::ReceiverOptions),
    VmcOsc(vmc::ReceiverOptions),
}

/// The VMC/OSC receiver's passthrough options from the configuration.
pub fn vmc_passthrough_options(config: &VmcOscPassthroughConfig) -> (o: vmc::PassthroughOptions)
    ensures
        o.enabled == config.enabled,
        views_of(o.targets@) == views_of(config.targets@),
        o.mode == vmc::PassthroughMode::RawUdpForward,
{
    vmc::PassthroughOptions {
        enabled: config.enabled,
        targets: clone_strings(&config.targets),
        mode: match config.mode {
            VmcOscPassthroughMode::RawUdpForward => vmc::PassthroughMode::RawUdpForward,
        },
    }
}

/// The receiver set up for `source`: iFacialMocap over UDP or TCP with the
/// configured host and ports (the other options at their defaults), or
/// VMC/OSC on the configured port with the configured passthrough.
pub fn receiver_setup(input: &InputConfig, passthrough: &VmcOscPassthroughConfig, source: InputSource) -> (r:
    ReceiverSetup)
    ensures
        match source {
            InputSource::VmcOsc => r matches ReceiverSetup::VmcOsc(o) && o.udp_port == input.vmc_osc_port
                && o.passthrough.enabled == passthrough.enabled && views_of(o.passthrough.targets@)
                == views_of(passthrough.targets@),
            _ => r matches ReceiverSetup::IfacialMocap(o) && o.host@ == input.host@ && o.udp_port
                == input.udp_port && o.tcp_port == input.tcp_port && o.use_tcp == (source
                == InputSource::IfacialmocapTcp) && o.start_command@ == "iFacialMocap_sahne"@,
        },
{
    match source {
        InputSource::VmcOsc => {
            let mut options = vmc::ReceiverOptions::default();
            options.udp_port = input.vmc_osc_port;
            options.passthrough = vmc_passthrough_options(passthrough);
            ReceiverSetup::VmcOsc(options)
        },
        _ => {
            let mut options = ifacialmocap::ReceiverOptions::default();
            options.host = input.host.clone();
            options.udp_port = input.udp_port;
            options.tcp_port = input.tcp_port;
            options.use_tcp = match source {
                InputSource::IfacialmocapTcp => true,
                _ => false,
            };
            ReceiverSetup::IfacialMocap(options)
        },
    }
}

/// Whether the command-line runtime captures the neutral pose from this
/// frame: calibration is enabled, asked for at start, not done yet, and
/// the receiver is active.
pub fn capture_calibration_due(enabled: bool, capture_on_start: bool, calibrated: bool, receiver_active: bool) -> (b:
    bool)
    ensures
        b == (enabled && capture_on_start && !calibrated && receiver_active),
{
    enabled && capture_on_start && !calibrated && receiver_active
}

/// The output step of a turn of the command-line runtime and whether the
/// idle output was sent: a frame is sent when output is live; without a
/// frame, one neutral frame is sent once the idle timeout has passed.
pub open spec fn spec_plan_cli_tick(frame_ready: bool, live: bool, since_last_frame_ms: u64, forced_idle_output: bool) -> (
    OutputStep,
    bool,
) {
    if frame_ready {
        (if live { OutputStep::Frame } else { OutputStep::Nothing }, false)
    } else if !forced_idle_output && since_last_frame_ms >= IDLE_TIMEOUT_MS {
        (if live { OutputStep::Neutral } else { OutputStep::Nothing }, true)
    } else {
        (OutputStep::Nothing, forced_idle_output)
    }
}

/// Plans a turn of the command-line runtime; see [`spec_plan_cli_tick`].
pub fn plan_cli_tick(frame_ready: bool, live: bool, since_last_frame_ms: u64, forced_idle_output: bool) -> (r: (
    OutputStep,
    bool,
))
    ensures
        r == spec_plan_cli_tick(frame_ready, live, since_last_frame_ms, forced_idle_output),
{
    if frame_ready {
        (if live { OutputStep::Frame } else { OutputStep::Nothing }, false)
    } else if !forced_idle_output && since_last_frame_ms >= IDLE_TIMEOUT_MS {
        (if live { OutputStep::Neutral } else { OutputStep::Nothing }, true)
    } else {
        (OutputStep::Nothing, forced_idle_output)
    }
}

/// The command-line runtime sends the idle neutral frame once per loss of
/// tracking: after it was sent, turns without frames send nothing.
pub proof fn law_cli_idle_output_once(live: bool, since_last_frame_ms: u64)
    ensures
        spec_plan_cli_tick(false, live, since_last_frame_ms, true).0 == OutputStep::Nothing,
        spec_plan_cli_tick(false, live, since_last_frame_ms, true).1,
{
}


/// Without session persistence a start is fresh: output on, the
/// iFacialMocap UDP input, the truck-simulator backend, no send filter, no
/// passthrough, spike rejection off, both inversions off and easing on;
/// only the VMC/OSC port and the passthrough mode come from the
/// configuration. With persistence the configured session is restored as
/// it is.
pub proof fn law_fresh_start_has_defaults(configured: SessionView)
    ensures
        !restore_session(false, configured).toggles.invert_output_yaw,
        !restore_session(false, configured).toggles.invert_output_pitch,
        !restore_session(false, configured).toggles.spike_rejection_enabled,
        restore_session(false, configured).toggles.output_easing_enabled,
        restore_session(false, configured).output_enabled,
        !restore_session(false, configured).passthrough_enabled,
        restore_session(false, configured).passthrough_targets.len() == 0,
        restore_session(false, configured).send_filter_process_names.len() == 0,
        restore_session(false, configured).input_source == InputSource::IfacialmocapUdp,
        restore_session(false, configured).output_backend == OutputBackendKind::Ets2,
        restore_session(false, configured).send_filter_mode == OutputSendFilterMode::Unrestricted,
        restore_session(false, configured).vmc_osc_port == configured.vmc_osc_port,
        restore_session(false, configured).passthrough_mode == configured.passthrough_mode,
        restore_session(true, configured) == configured,
{
}
} // verus!
