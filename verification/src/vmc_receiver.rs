//! The VMC/OSC receiver's connection state and statistics around the
//! socket, the reading thread and the passthrough worker, which run outside
//! the library: what a connection attempt, an error, a disconnection and
//! the worker's reports do to them, the checks of the configured targets,
//! the worker's accounting of each datagram sent, and the diagnostic shown
//! while no frame arrives.
use vstd::prelude::*;
use crate::text::{decimal, decimal_string};
use crate::vmc::{
    check_passthrough_target, join_warnings, passthrough_warning_summary, target_check_matches,
    ConnectionState, ReceiverOptions, ReceiverStats, TargetCheck,
};

verus! {

/// The connection side of the receiver: its state, whether it is active,
/// whether its socket is open, and its statistics.
pub struct VmcReceiverStatus {
    pub state: ConnectionState,
    pub active: bool,
    pub socket_open: bool,
    pub stats: ReceiverStats,
}

impl VmcReceiverStatus {
    /// A receiver that has not connected yet.
    pub fn new() -> (r: Self)
        ensures
            r.state == ConnectionState::Disconnected,
            !r.active,
            !r.socket_open,
            r.stats.frames_emitted == 0,
            r.stats.udp_packets_received == 0,
            r.stats.passthrough_targets_active == 0,
            r.stats.last_error is None,
    {
        VmcReceiverStatus {
            state: ConnectionState::Disconnected,
            active: false,
            socket_open: false,
            stats: ReceiverStats::default(),
        }
    }

    /// A connection attempt starts; the previous socket is released.
    pub fn begin_connect(&mut self)
        ensures
            final(self).state == ConnectionState::Connecting,
            !final(self).socket_open,
            final(self).active == old(self).active,
    {
        self.socket_open = false;
        self.state = ConnectionState::Connecting;
    }

    /// The passthrough targets of this connection are known: `active`
    /// resolved targets, and the warnings about the others. The worker's
    /// counters start over.
    pub fn start_passthrough(&mut self, active: usize, warnings: &Vec<String>)
        ensures
            final(self).stats.passthrough_targets_active == active,
            final(self).stats.passthrough_packets_forwarded == 0,
            final(self).stats.passthrough_packets_failed == 0,
            final(self).stats.passthrough_packets_dropped == 0,
            warnings@.len() == 0 ==> final(self).stats.passthrough_last_warning is None,
            warnings@.len() > 0 ==> (final(self).stats.passthrough_last_warning matches Some(w)
                && w@ == join_warnings(warnings@.map_values(|w: String| w@))),
            final(self).state == old(self).state,
            final(self).active == old(self).active,
            final(self).socket_open == old(self).socket_open,
            final(self).stats.last_error == old(self).stats.last_error,
    {
        self.stats.passthrough_targets_active = active;
        self.stats.passthrough_packets_forwarded = 0;
        self.stats.passthrough_packets_failed = 0;
        self.stats.passthrough_packets_dropped = 0;
        self.stats.passthrough_last_warning = passthrough_warning_summary(warnings);
    }

    /// The passthrough worker could not be started.
    pub fn worker_spawn_failed(&mut self)
        ensures
            final(self).stats.passthrough_last_warning matches Some(w) && w@
                == "failed to spawn passthrough worker thread"@,
            final(self).state == old(self).state,
            final(self).active == old(self).active,
            final(self).socket_open == old(self).socket_open,
            final(self).stats.passthrough_targets_active == old(self).stats.passthrough_targets_active,
    {
        self.stats.passthrough_last_warning = Some(
            String::from_str("failed to spawn passthrough worker thread"),
        );
    }

    /// The socket is bound and the reading thread runs: the receiver is
    /// receiving.
    pub fn connected(&mut self)
        ensures
            final(self).state == ConnectionState::Receiving,
            final(self).active,
            final(self).socket_open,
            final(self).stats.last_error is None,
            final(self).stats.passthrough_targets_active == old(self).stats.passthrough_targets_active,
    {
        self.socket_open = true;
        self.state = ConnectionState::Receiving;
        self.active = true;
        self.stats.last_error = None;
    }

    /// An error stops the receiver and closes its socket.
    pub fn record_error(&mut self, message: String)
        ensures
            final(self).state == ConnectionState::Error,
            !final(self).active,
            !final(self).socket_open,
            final(self).stats.last_error == Some(message),
    {
        self.state = ConnectionState::Error;
        self.active = false;
        self.socket_open = false;
        self.stats.last_error = Some(message);
    }

    /// The receiver is closed; no passthrough target is active any more.
    pub fn disconnect(&mut self)
        ensures
            final(self).state == ConnectionState::Disconnected,
            !final(self).active,
            !final(self).socket_open,
            final(self).stats.passthrough_targets_active == 0,
            final(self).stats.last_error == old(self).stats.last_error,
    {
        self.state = ConnectionState::Disconnected;
        self.active = false;
        self.socket_open = false;
        self.stats.passthrough_targets_active = 0;
    }

    /// Forgets the last error: receiving again while the socket is open,
    /// disconnected otherwise.
    pub fn clear_error(&mut self)
        ensures
            final(self).stats.last_error is None,
            final(self).socket_open == old(self).socket_open,
            final(self).state == if old(self).socket_open {
                ConnectionState::Receiving
            } else {
                ConnectionState::Disconnected
            },
            final(self).active == old(self).socket_open,
    {
        self.stats.last_error = None;
        if self.socket_open {
            self.state = ConnectionState::Receiving;
            self.active = true;
        } else {
            self.state = ConnectionState::Disconnected;
            self.active = false;
        }
    }

    /// The reading thread delivered a frame: the receiver is receiving.
    pub fn frame_received(&mut self)
        ensures
            final(self).state == ConnectionState::Receiving,
            final(self).active,
            final(self).socket_open == old(self).socket_open,
            final(self).stats.last_error is None,
    {
        self.state = ConnectionState::Receiving;
        self.active = true;
        self.stats.last_error = None;
    }

    /// The passthrough worker's counters and last warning; a report without
    /// a warning keeps the warning shown before.
    pub fn absorb_passthrough(&mut self, forwarded: u64, failed: u64, dropped: u64, warning: Option<String>)
        ensures
            final(self).stats.passthrough_packets_forwarded == forwarded,
            final(self).stats.passthrough_packets_failed == failed,
            final(self).stats.passthrough_packets_dropped == dropped,
            final(self).stats.passthrough_last_warning == match warning {
                Some(w) => Some(w),
                None => old(self).stats.passthrough_last_warning,
            },
            final(self).state == old(self).state,
            final(self).active == old(self).active,
            final(self).socket_open == old(self).socket_open,
            final(self).stats.last_error == old(self).stats.last_error,
    {
        self.stats.passthrough_packets_forwarded = forwarded;
        self.stats.passthrough_packets_failed = failed;
        self.stats.passthrough_packets_dropped = dropped;
        if let Some(w) = warning {
            self.stats.passthrough_last_warning = Some(w);
        }
    }
}

/// The checks of all configured passthrough targets, in order; none when
/// passthrough is disabled.
pub fn check_passthrough_targets(options: &ReceiverOptions) -> (checks: Vec<TargetCheck>)
    ensures
        !options.passthrough.enabled ==> checks@.len() == 0,
        options.passthrough.enabled ==> checks@.len() == options.passthrough.targets@.len(),
        options.passthrough.enabled ==> forall|i: int|
            0 <= i < checks@.len() ==> target_check_matches(
                options.passthrough.targets@[i]@,
                options.udp_port,
                #[trigger] checks@[i],
            ),
{
    let mut checks: Vec<TargetCheck> = Vec::new();
    if !options.passthrough.enabled {
        return checks;
    }
    let targets = &options.passthrough.targets;
    let mut i: usize = 0;
    while i < targets.len()
        invariant
            i <= targets@.len(),
            targets@ == options.passthrough.targets@,
            checks@.len() == i,
            forall|k: int|
                0 <= k < i ==> target_check_matches(
                    targets@[k]@,
                    options.udp_port,
                    #[trigger] checks@[k],
                ),
        decreases targets.len() - i,
    {
        let c = check_passthrough_target(targets[i].as_str(), options.udp_port);
        checks.push(c);
        i = i + 1;
    }
    checks
}

/// What sending one datagram to one target gave.
#[derive(Debug, Clone)]
pub enum TargetSend {
    /// The system accepted this many bytes.
    Sent { bytes: usize },
    /// The send failed; the error's text.
    Failed { error: String },
}

/// The worker's accounting of one send: whether it counts as forwarded
/// (else as failed), and the warning it leaves.
#[derive(Debug, Clone)]
pub struct SendAccounting {
    pub forwarded: bool,
    pub warning: Option<String>,
}

/// Accounts for sending a datagram of `payload_len` bytes to `target` (the
/// address as text): a complete send is forwarded; a short one and a
/// failed one count as failed, with a warning naming the target.
pub fn account_send(target: &str, payload_len: usize, outcome: &TargetSend) -> (a: SendAccounting)
    ensures
        match outcome {
            TargetSend::Sent { bytes } => if *bytes == payload_len {
                a.forwarded && a.warning is None
            } else {
                !a.forwarded && (a.warning matches Some(w) && w@ == "short passthrough send to "@
                    + target@ + ": sent "@ + decimal(*bytes as nat) + " / "@ + decimal(
                    payload_len as nat,
                ) + " bytes"@)
            },
            TargetSend::Failed { error } => !a.forwarded && (a.warning matches Some(w) && w@
                == "passthrough send to "@ + target@ + " failed: "@ + error@),
        },
{
    match outcome {
        TargetSend::Sent { bytes } => {
            if *bytes == payload_len {
                SendAccounting { forwarded: true, warning: None }
            } else {
                let sent = decimal_string(*bytes as u64);
                let total = decimal_string(payload_len as u64);
                let w = String::from_str("short passthrough send to ").concat(target).concat(
                    ": sent ",
                ).concat(sent.as_str()).concat(" / ").concat(total.as_str()).concat(" bytes");
                SendAccounting { forwarded: false, warning: Some(w) }
            }
        },
        TargetSend::Failed { error } => {
            let w = String::from_str("passthrough send to ").concat(target).concat(
                " failed: ",
            ).concat(error.as_str());
            SendAccounting { forwarded: false, warning: Some(w) }
        },
    }
}

/// The warning left when the worker could not bind its sending socket.
pub fn worker_bind_warning(error: &str) -> (w: String)
    ensures
        w@ == "passthrough worker bind failed: "@ + error@,
{
    String::from_str("passthrough worker bind failed: ").concat(error)
}

/// The diagnostic shown while no frame arrives, from the statistics and the
/// listening port.
pub open spec fn spec_vmc_idle_diagnostic(
    frames_emitted: u64,
    packets_received: u64,
    last_error: Option<Seq<char>>,
    udp_port: u16,
) -> Option<Seq<char>> {
    if frames_emitted > 0 {
        None
    } else if packets_received == 0 {
        Some(
            "no VMC/OSC packets received yet on UDP port "@ + decimal(udp_port as nat)
                + "; verify sender target host/port"@,
        )
    } else if last_error is Some {
        Some("VMC/OSC packets were received but ignored: "@ + last_error.unwrap())
    } else {
        Some(
            "VMC/OSC packets were received on UDP port "@ + decimal(udp_port as nat)
                + " but no usable head pose was found; verify /VMC/Ext/Bone/Pos for Head"@,
        )
    }
}

/// Why no frame arrived yet, when none did.
pub fn vmc_idle_diagnostic_message(stats: &ReceiverStats, udp_port: u16) -> (r: Option<String>)
    ensures
        ({
            let e = match stats.last_error {
                Some(m) => Some(m@),
                None => None,
            };
            let d = spec_vmc_idle_diagnostic(
                stats.frames_emitted,
                stats.udp_packets_received,
                e,
                udp_port,
            );
            &&& r is Some <==> d is Some
            &&& r matches Some(m) ==> m@ == d.unwrap()
        }),
{
    if stats.frames_emitted > 0 {
        return None;
    }
    let port = decimal_string(udp_port as u64);
    if stats.udp_packets_received == 0 {
        return Some(
            String::from_str("no VMC/OSC packets received yet on UDP port ").concat(
                port.as_str(),
            ).concat("; verify sender target host/port"),
        );
    }
    match &stats.last_error {
        Some(error) => Some(
            String::from_str("VMC/OSC packets were received but ignored: ").concat(error.as_str()),
        ),
        None => Some(
            String::from_str("VMC/OSC packets were received on UDP port ").concat(
                port.as_str(),
            ).concat(" but no usable head pose was found; verify /VMC/Ext/Bone/Pos for Head"),
        ),
    }
}

} // verus!
