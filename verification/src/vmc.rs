//! The VMC/OSC receiver's own logic: options and statistics, the
//! recognition of pose messages and bone names, the collection of a pose
//! from the messages of one packet, the choice of eye rotations, and the
//! checking of passthrough targets.
//!
//! Rotations and blend values are floating point; the collector holds them
//! as values of caller-chosen types `R` and `B` without looking inside.
use vstd::prelude::*;
use crate::config::VMC_OSC_DEFAULT_PORT;
use crate::passthrough::{
    format_target_for_send, is_local_host, is_self_loop_target, parse_target_host_port,
    spec_format_target, spec_parse_target,
};
use crate::text::{ascii_lower, chars_equal, chars_of, lower_chars, string_from_chars, trim, trim_chars};

verus! {

#[derive(Debug, Clone, Copy, PartialEq, Eq, Structural)]
pub enum PassthroughMode {
    RawUdpForward,
}

impl Default for PassthroughMode {
    fn default() -> (r: Self)
        ensures
            r == PassthroughMode::RawUdpForward,
    {
        PassthroughMode::RawUdpForward
    }
}

#[derive(Debug, Clone, Copy, PartialEq, Eq, Structural)]
pub enum ConnectionState {
    Disconnected,
    Connecting,
    Receiving,
    Error,
}

/// Forwarding of every received datagram to other programs.
#[derive(Debug, Clone)]
pub struct PassthroughOptions {
    pub enabled: bool,
    pub targets: Vec<String>,
    pub mode: PassthroughMode,
}

impl Default for PassthroughOptions {
    fn default() -> (r: Self)
        ensures
            !r.enabled,
            r.targets@.len() == 0,
            r.mode == PassthroughMode::RawUdpForward,
    {
        PassthroughOptions { enabled: false, targets: Vec::new(), mode: PassthroughMode::RawUdpForward }
    }
}

#[derive(Debug, Clone)]
pub struct ReceiverOptions {
    pub udp_port: u16,
    pub passthrough: PassthroughOptions,
}

impl Default for ReceiverOptions {
    fn default() -> (r: Self)
        ensures
            r.udp_port == VMC_OSC_DEFAULT_PORT,
            !r.passthrough.enabled,
            r.passthrough.targets@.len() == 0,
    {
        ReceiverOptions { udp_port: VMC_OSC_DEFAULT_PORT, passthrough: PassthroughOptions::default() }
    }
}

#[derive(Debug, Clone)]
pub struct ReceiverStats {
    pub udp_packets_received: u64,
    pub osc_packets_decoded: u64,
    pub frames_emitted: u64,
    pub frames_ignored: u64,
    pub passthrough_targets_active: usize,
    pub passthrough_packets_forwarded: u64,
    pub passthrough_packets_failed: u64,
    pub passthrough_packets_dropped: u64,
    pub passthrough_last_warning: Option<String>,
    pub last_packet_timestamp_ms: Option<u64>,
    pub last_error: Option<String>,
}

impl Default for ReceiverStats {
    fn default() -> (r: Self)
        ensures
            r.udp_packets_received == 0,
            r.osc_packets_decoded == 0,
            r.frames_emitted == 0,
            r.frames_ignored == 0,
            r.passthrough_targets_active == 0,
            r.passthrough_packets_forwarded == 0,
            r.passthrough_packets_failed == 0,
            r.passthrough_packets_dropped == 0,
            r.passthrough_last_warning is None,
            r.last_packet_timestamp_ms is None,
            r.last_error is None,
    {
        ReceiverStats {
            udp_packets_received: 0,
            osc_packets_decoded: 0,
            frames_emitted: 0,
            frames_ignored: 0,
            passthrough_targets_active: 0,
            passthrough_packets_forwarded: 0,
            passthrough_packets_failed: 0,
            passthrough_packets_dropped: 0,
            passthrough_last_warning: None,
            last_packet_timestamp_ms: None,
            last_error: None,
        }
    }
}

/// The counters kept by the reading thread.
#[derive(Debug, Clone)]
pub struct ReaderCounters {
    pub udp_packets_received: u64,
    pub osc_packets_decoded: u64,
    pub frames_emitted: u64,
    pub frames_ignored: u64,
    pub last_packet_timestamp_ms: Option<u64>,
    pub last_error: Option<String>,
}

impl Default for ReaderCounters {
    fn default() -> (r: Self)
        ensures
            r.udp_packets_received == 0,
            r.osc_packets_decoded == 0,
            r.frames_emitted == 0,
            r.frames_ignored == 0,
            r.last_packet_timestamp_ms is None,
            r.last_error is None,
    {
        ReaderCounters {
            udp_packets_received: 0,
            osc_packets_decoded: 0,
            frames_emitted: 0,
            frames_ignored: 0,
            last_packet_timestamp_ms: None,
            last_error: None,
        }
    }
}

/// `x + 1`, stopping at the largest value.
pub open spec fn sat_inc(x: u64) -> u64 {
    if x < u64::MAX {
        (x + 1) as u64
    } else {
        x
    }
}

/// What became of one received datagram.
#[derive(Debug, Clone)]
pub enum PacketOutcome {
    /// It decoded as OSC; `emitted` tells whether it yielded a frame.
    Decoded { emitted: bool },
    /// It did not decode as OSC, for the given reason.
    Undecodable { reason: String },
}

impl ReaderCounters {
    /// Accounts for one received datagram.
    pub fn record_packet(&mut self, timestamp_ms: u64, outcome: PacketOutcome)
        ensures
            final(self).udp_packets_received == sat_inc(old(self).udp_packets_received),
            final(self).last_packet_timestamp_ms == Some(timestamp_ms),
            match outcome {
                PacketOutcome::Decoded { emitted } => {
                    &&& final(self).osc_packets_decoded == sat_inc(old(self).osc_packets_decoded)
                    &&& emitted ==> final(self).frames_emitted == sat_inc(old(self).frames_emitted)
                        && final(self).frames_ignored == old(self).frames_ignored
                        && final(self).last_error is None
                    &&& !emitted ==> final(self).frames_emitted == old(self).frames_emitted
                        && final(self).frames_ignored == sat_inc(old(self).frames_ignored)
                        && final(self).last_error == old(self).last_error
                },
                PacketOutcome::Undecodable { reason } => {
                    &&& final(self).osc_packets_decoded == old(self).osc_packets_decoded
                    &&& final(self).frames_emitted == old(self).frames_emitted
                    &&& final(self).frames_ignored == sat_inc(old(self).frames_ignored)
                    &&& final(self).last_error == Some(reason)
                },
            },
    {
        self.udp_packets_received = self.udp_packets_received.saturating_add(1);
        self.last_packet_timestamp_ms = Some(timestamp_ms);
        match outcome {
            PacketOutcome::Decoded { emitted } => {
                self.osc_packets_decoded = self.osc_packets_decoded.saturating_add(1);
                if emitted {
                    self.frames_emitted = self.frames_emitted.saturating_add(1);
                    self.last_error = None;
                } else {
                    self.frames_ignored = self.frames_ignored.saturating_add(1);
                }
            },
            PacketOutcome::Undecodable { reason } => {
                self.frames_ignored = self.frames_ignored.saturating_add(1);
                self.last_error = Some(reason);
            },
        }
    }

    /// Accounts for a failed receive; `detail` is the error's text.
    pub fn record_receive_error(&mut self, detail: &str)
        ensures
            final(self).frames_ignored == sat_inc(old(self).frames_ignored),
            final(self).udp_packets_received == old(self).udp_packets_received,
            final(self).last_error matches Some(e) && e@ == "VMC/OSC UDP receive failed: "@ + detail@,
    {
        self.frames_ignored = self.frames_ignored.saturating_add(1);
        self.last_error = Some(String::from_str("VMC/OSC UDP receive failed: ").concat(detail));
    }
}

impl ReceiverStats {
    /// Copies the reading thread's counters into the receiver's statistics.
    pub fn absorb_reader(&mut self, reader: &ReaderCounters)
        ensures
            final(self).udp_packets_received == reader.udp_packets_received,
            final(self).osc_packets_decoded == reader.osc_packets_decoded,
            final(self).frames_emitted == reader.frames_emitted,
            final(self).frames_ignored == reader.frames_ignored,
            final(self).last_packet_timestamp_ms == reader.last_packet_timestamp_ms,
            final(self).last_error == reader.last_error,
            final(self).passthrough_targets_active == old(self).passthrough_targets_active,
            final(self).passthrough_packets_forwarded == old(self).passthrough_packets_forwarded,
            final(self).passthrough_packets_failed == old(self).passthrough_packets_failed,
            final(self).passthrough_packets_dropped == old(self).passthrough_packets_dropped,
            final(self).passthrough_last_warning == old(self).passthrough_last_warning,
    {
        self.udp_packets_received = reader.udp_packets_received;
        self.osc_packets_decoded = reader.osc_packets_decoded;
        self.frames_emitted = reader.frames_emitted;
        self.frames_ignored = reader.frames_ignored;
        self.last_packet_timestamp_ms = reader.last_packet_timestamp_ms;
        self.last_error = reader.last_error.clone();
    }
}

/// `a` equals `b` ignoring ASCII case.
pub open spec fn eq_ignore_case(a: Seq<char>, b: Seq<char>) -> bool {
    ascii_lower(a) == ascii_lower(b)
}

fn eq_ignore_case_str(a: &str, b: &str) -> (r: bool)
    ensures
        r == eq_ignore_case(a@, b@),
{
    let x = lower_chars(&chars_of(a));
    let y = lower_chars(&chars_of(b));
    chars_equal(&x, &y)
}

pub open spec fn spec_is_head_bone(name: Seq<char>) -> bool {
    eq_ignore_case(name, "Head"@) || eq_ignore_case(name, "J_Bip_C_Head"@)
}

pub open spec fn spec_is_left_eye_bone(name: Seq<char>) -> bool {
    ||| eq_ignore_case(name, "LeftEye"@)
    ||| eq_ignore_case(name, "Eye_L"@)
    ||| eq_ignore_case(name, "J_Adj_L_FaceEye"@)
    ||| eq_ignore_case(name, "J_Bip_L_Eye"@)
}

pub open spec fn spec_is_right_eye_bone(name: Seq<char>) -> bool {
    ||| eq_ignore_case(name, "RightEye"@)
    ||| eq_ignore_case(name, "Eye_R"@)
    ||| eq_ignore_case(name, "J_Adj_R_FaceEye"@)
    ||| eq_ignore_case(name, "J_Bip_R_Eye"@)
}

pub fn is_head_bone(name: &str) -> (b: bool)
    ensures
        b == spec_is_head_bone(name@),
{
    eq_ignore_case_str(name, "Head") || eq_ignore_case_str(name, "J_Bip_C_Head")
}

pub fn is_left_eye_bone(name: &str) -> (b: bool)
    ensures
        b == spec_is_left_eye_bone(name@),
{
    eq_ignore_case_str(name, "LeftEye") || eq_ignore_case_str(name, "Eye_L") || eq_ignore_case_str(
        name,
        "J_Adj_L_FaceEye",
    ) || eq_ignore_case_str(name, "J_Bip_L_Eye")
}

pub fn is_right_eye_bone(name: &str) -> (b: bool)
    ensures
        b == spec_is_right_eye_bone(name@),
{
    eq_ignore_case_str(name, "RightEye") || eq_ignore_case_str(name, "Eye_R") || eq_ignore_case_str(
        name,
        "J_Adj_R_FaceEye",
    ) || eq_ignore_case_str(name, "J_Bip_R_Eye")
}

/// The kinds of OSC message the pose is collected from.
#[derive(Debug, Clone, Copy, PartialEq, Eq, Structural)]
pub enum MessageKind {
    BonePose,
    BlendValue,
    Other,
}

pub open spec fn spec_message_kind(addr: Seq<char>) -> MessageKind {
    if eq_ignore_case(addr, "/VMC/Ext/Bone/Pos"@) {
        MessageKind::BonePose
    } else if eq_ignore_case(addr, "/VMC/Ext/Blend/Val"@) {
        MessageKind::BlendValue
    } else {
        MessageKind::Other
    }
}

/// The kind of an OSC message, by its address (ignoring ASCII case).
pub fn message_kind(addr: &str) -> (k: MessageKind)
    ensures
        k == spec_message_kind(addr@),
{
    if eq_ignore_case_str(addr, "/VMC/Ext/Bone/Pos") {
        MessageKind::BonePose
    } else if eq_ignore_case_str(addr, "/VMC/Ext/Blend/Val") {
        MessageKind::BlendValue
    } else {
        MessageKind::Other
    }
}

/// The pose gathered from the messages of one packet.
#[derive(Debug, Clone)]
pub struct VmcPose<R, B> {
    pub saw_pose_message: bool,
    pub head: Option<R>,
    pub left_eye: Option<R>,
    pub right_eye: Option<R>,
    pub look_left: Option<B>,
    pub look_right: Option<B>,
    pub look_up: Option<B>,
    pub look_down: Option<B>,
}

/// Where the eye rotations of a frame come from.
#[derive(Debug, Clone)]
pub enum EyeChoice<R> {
    /// Bone rotations for the left and right eye (one bone stands for both
    /// when only it was seen).
    Bones { left: R, right: R },
    /// Both eyes from the look blend values.
    Blend,
    /// Both eyes centred.
    Centered,
}

impl<R: Copy, B: Copy> VmcPose<R, B> {
    pub fn new() -> (p: Self)
        ensures
            !p.saw_pose_message,
            p.head is None && p.left_eye is None && p.right_eye is None,
            p.look_left is None && p.look_right is None && p.look_up is None && p.look_down is None,
    {
        VmcPose {
            saw_pose_message: false,
            head: None,
            left_eye: None,
            right_eye: None,
            look_left: None,
            look_right: None,
            look_up: None,
            look_down: None,
        }
    }

    /// A bone pose message was seen; `parsed` is its bone name and rotation
    /// when the message was well formed. The head and eye bones keep the
    /// latest rotation; other bones are ignored.
    pub fn observe_bone(&mut self, parsed: Option<(&str, R)>)
        ensures
            final(self).saw_pose_message,
            final(self).look_left == old(self).look_left,
            final(self).look_right == old(self).look_right,
            final(self).look_up == old(self).look_up,
            final(self).look_down == old(self).look_down,
            match parsed {
                None => final(self).head == old(self).head && final(self).left_eye == old(
                    self,
                ).left_eye && final(self).right_eye == old(self).right_eye,
                Some((name, rotation)) => if spec_is_head_bone(name@) {
                    final(self).head == Some(rotation) && final(self).left_eye == old(self).left_eye
                        && final(self).right_eye == old(self).right_eye
                } else if spec_is_left_eye_bone(name@) {
                    final(self).head == old(self).head && final(self).left_eye == Some(rotation)
                        && final(self).right_eye == old(self).right_eye
                } else if spec_is_right_eye_bone(name@) {
                    final(self).head == old(self).head && final(self).left_eye == old(self).left_eye
                        && final(self).right_eye == Some(rotation)
                } else {
                    final(self).head == old(self).head && final(self).left_eye == old(self).left_eye
                        && final(self).right_eye == old(self).right_eye
                },
            },
    {
        self.saw_pose_message = true;
        match parsed {
            None => {},
            Some((name, rotation)) => {
                if is_head_bone(name) {
                    self.head = Some(rotation);
                } else if is_left_eye_bone(name) {
                    self.left_eye = Some(rotation);
                } else if is_right_eye_bone(name) {
                    self.right_eye = Some(rotation);
                }
            },
        }
    }

    /// A blend value message was seen; `parsed` is its name and value when
    /// the message was well formed. The four look blends keep the latest
    /// value; other blends are ignored.
    pub fn observe_blend(&mut self, parsed: Option<(&str, B)>)
        ensures
            final(self).saw_pose_message,
            final(self).head == old(self).head,
            final(self).left_eye == old(self).left_eye,
            final(self).right_eye == old(self).right_eye,
            match parsed {
                None => {
                    &&& final(self).look_left == old(self).look_left
                    &&& final(self).look_right == old(self).look_right
                    &&& final(self).look_up == old(self).look_up
                    &&& final(self).look_down == old(self).look_down
                },
                Some((name, value)) => {
                    &&& final(self).look_left == if eq_ignore_case(name@, "LookLeft"@) {
                        Some(value)
                    } else {
                        old(self).look_left
                    }
                    &&& final(self).look_right == if !eq_ignore_case(name@, "LookLeft"@)
                        && eq_ignore_case(name@, "LookRight"@) {
                        Some(value)
                    } else {
                        old(self).look_right
                    }
                    &&& final(self).look_up == if !eq_ignore_case(name@, "LookLeft"@)
                        && !eq_ignore_case(name@, "LookRight"@) && eq_ignore_case(name@, "LookUp"@) {
                        Some(value)
                    } else {
                        old(self).look_up
                    }
                    &&& final(self).look_down == if !eq_ignore_case(name@, "LookLeft"@)
                        && !eq_ignore_case(name@, "LookRight"@) && !eq_ignore_case(name@, "LookUp"@)
                        && eq_ignore_case(name@, "LookDown"@) {
                        Some(value)
                    } else {
                        old(self).look_down
                    }
                },
            },
    {
        self.saw_pose_message = true;
        match parsed {
            None => {},
            Some((name, value)) => {
                if eq_ignore_case_str(name, "LookLeft") {
                    self.look_left = Some(value);
                } else if eq_ignore_case_str(name, "LookRight") {
                    self.look_right = Some(value);
                } else if eq_ignore_case_str(name, "LookUp") {
                    self.look_up = Some(value);
                } else if eq_ignore_case_str(name, "LookDown") {
                    self.look_down = Some(value);
                }
            },
        }
    }

    /// Whether any look blend value was seen.
    pub fn has_any_blend(&self) -> (b: bool)
        ensures
            b == (self.look_left is Some || self.look_right is Some || self.look_up is Some
                || self.look_down is Some),
    {
        self.look_left.is_some() || self.look_right.is_some() || self.look_up.is_some()
            || self.look_down.is_some()
    }

    /// The head rotation and the source of the eye rotations of the frame
    /// this pose yields; `None` when no pose message was seen or the head is
    /// missing. Both eye bones are used when present; a single eye bone
    /// stands for both; without eye bones the blend values are used when any
    /// was seen; otherwise the eyes are centred.
    pub fn frame_parts(&self) -> (r: Option<(R, EyeChoice<R>)>)
        ensures
            !self.saw_pose_message || self.head is None ==> r is None,
            self.saw_pose_message && self.head is Some ==> (r matches Some((h, choice)) && h
                == self.head.unwrap() && match (self.left_eye, self.right_eye) {
                (Some(l), Some(rr)) => choice == EyeChoice::Bones { left: l, right: rr },
                (Some(l), None) => choice == EyeChoice::Bones { left: l, right: l },
                (None, Some(rr)) => choice == EyeChoice::Bones { left: rr, right: rr },
                (None, None) => if self.look_left is Some || self.look_right is Some
                    || self.look_up is Some || self.look_down is Some {
                    choice == EyeChoice::<R>::Blend
                } else {
                    choice == EyeChoice::<R>::Centered
                },
            }),
    {
        if !self.saw_pose_message {
            return None;
        }
        let head = match self.head {
            Some(h) => h,
            None => return None,
        };
        let choice = match (self.left_eye, self.right_eye) {
            (Some(l), Some(r)) => EyeChoice::Bones { left: l, right: r },
            (Some(l), None) => EyeChoice::Bones { left: l, right: l },
            (None, Some(r)) => EyeChoice::Bones { left: r, right: r },
            (None, None) => if self.has_any_blend() {
                EyeChoice::Blend
            } else {
                EyeChoice::Centered
            },
        };
        Some((head, choice))
    }
}

/// How one configured passthrough target is treated.
#[derive(Debug, Clone)]
pub enum TargetCheck {
    /// A blank entry, skipped silently.
    Blank,
    /// Rejected, with the warning to report.
    Rejected { warning: String },
    /// To be resolved: the trimmed entry and the address text to resolve.
    Candidate { trimmed: String, send_target: String },
}

pub open spec fn invalid_warning(trimmed: Seq<char>) -> Seq<char> {
    "ignored invalid passthrough target `"@ + trimmed + "`"@
}

pub open spec fn self_loop_warning(trimmed: Seq<char>) -> Seq<char> {
    "ignored self-loop passthrough target `"@ + trimmed + "`"@
}

pub open spec fn unresolved_warning(trimmed: Seq<char>) -> Seq<char> {
    "ignored unresolved passthrough target `"@ + trimmed + "`"@
}

/// Whether `r` is how the configured entry `raw` is treated by a receiver
/// listening on `listen_port`.
pub open spec fn target_check_matches(raw: Seq<char>, listen_port: u16, r: TargetCheck) -> bool {
    let trimmed = trim(raw);
    match r {
        TargetCheck::Blank => trimmed.len() == 0,
        TargetCheck::Rejected { warning } => trimmed.len() > 0 && match spec_parse_target(trimmed) {
            None => warning@ == invalid_warning(trimmed),
            Some((host, port)) => port == listen_port && is_local_host(host) && warning@
                == self_loop_warning(trimmed),
        },
        TargetCheck::Candidate { trimmed: t, send_target } => trimmed.len() > 0 && t@ == trimmed
            && match spec_parse_target(trimmed) {
            None => false,
            Some((host, port)) => !(port == listen_port && is_local_host(host)) && send_target@
                == spec_format_target(host, port),
        },
    }
}

/// Checks one configured target against the receiver's own port: blank
/// entries are skipped, unparsable ones and ones that would loop back to the
/// receiver are rejected with a warning, the rest are to be resolved.
pub fn check_passthrough_target(raw: &str, listen_port: u16) -> (r: TargetCheck)
    ensures
        target_check_matches(raw@, listen_port, r),
{
    let trimmed_chars = trim_chars(&chars_of(raw));
    if trimmed_chars.len() == 0 {
        return TargetCheck::Blank;
    }
    let trimmed = string_from_chars(&trimmed_chars);
    match parse_target_host_port(trimmed.as_str()) {
        None => {
            proof {
                crate::passthrough::lemma_trim_trim(raw@);
            }
            let warning = String::from_str("ignored invalid passthrough target `").concat(
                trimmed.as_str(),
            ).concat("`");
            TargetCheck::Rejected { warning }
        },
        Some((host, port)) => {
            proof {
                crate::passthrough::lemma_trim_trim(raw@);
            }
            if is_self_loop_target(host.as_str(), port, listen_port) {
                let warning = String::from_str("ignored self-loop passthrough target `").concat(
                    trimmed.as_str(),
                ).concat("`");
                TargetCheck::Rejected { warning }
            } else {
                let send_target = format_target_for_send(host.as_str(), port);
                TargetCheck::Candidate { trimmed, send_target }
            }
        },
    }
}

/// The warning for a target whose address did not resolve.
pub fn unresolved_target_warning(trimmed: &str) -> (w: String)
    ensures
        w@ == unresolved_warning(trimmed@),
{
    String::from_str("ignored unresolved passthrough target `").concat(trimmed).concat("`")
}

/// The warnings joined with `; `.
pub open spec fn join_warnings(warnings: Seq<Seq<char>>) -> Seq<char>
    decreases warnings.len(),
{
    if warnings.len() == 0 {
        Seq::empty()
    } else if warnings.len() == 1 {
        warnings[0]
    } else {
        join_warnings(warnings.drop_last()) + "; "@ + warnings.last()
    }
}

/// The passthrough warning to show: none without warnings, else all of
/// them joined with `; `.
pub fn passthrough_warning_summary(warnings: &Vec<String>) -> (r: Option<String>)
    ensures
        warnings@.len() == 0 ==> r is None,
        warnings@.len() > 0 ==> (r matches Some(s) && s@ == join_warnings(
            warnings@.map_values(|w: String| w@),
        )),
{
    if warnings.len() == 0 {
        return None;
    }
    let ghost ws = warnings@.map_values(|w: String| w@);
    let mut out = warnings[0].clone();
    let mut i: usize = 1;
    assert(ws.take(1) =~= seq![ws[0]]);
    while i < warnings.len()
        invariant
            1 <= i <= warnings@.len(),
            ws == warnings@.map_values(|w: String| w@),
            out@ == join_warnings(ws.take(i as int)),
        decreases warnings.len() - i,
    {
        assert(ws.take(i + 1).drop_last() =~= ws.take(i as int));
        out = out.concat("; ").concat(warnings[i].as_str());
        i = i + 1;
    }
    assert(ws.take(warnings@.len() as int) =~= ws);
    Some(out)
}

} // verus!
