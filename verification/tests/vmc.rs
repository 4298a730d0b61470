use std::sync::atomic::{AtomicU64, Ordering};
use std::sync::mpsc::sync_channel;
use std::sync::{Arc, Mutex};

use unvet::vmc::{
    check_passthrough_target, is_head_bone, is_left_eye_bone, is_right_eye_bone, message_kind,
    passthrough_warning_summary, unresolved_target_warning, ConnectionState, EyeChoice, MessageKind,
    PacketOutcome, PassthroughOptions, ReaderCounters, ReceiverOptions, ReceiverStats, TargetCheck, VmcPose,
};
use unvet::vmc_dispatch::{drop_warning, PassthroughDispatch, SendAttempt};
use unvet::vmc_receiver::{
    account_send, check_passthrough_targets, vmc_idle_diagnostic_message, worker_bind_warning, TargetSend,
    VmcReceiverStatus,
};

#[test]
fn bone_names_ignore_case() {
    assert!(is_head_bone("Head"));
    assert!(is_head_bone("j_bip_c_head"));
    assert!(!is_head_bone("Neck"));
    assert!(is_left_eye_bone("LEFTEYE"));
    assert!(is_left_eye_bone("J_Adj_L_FaceEye"));
    assert!(is_right_eye_bone("eye_r"));
    assert!(!is_right_eye_bone("Eye_L"));
    assert_eq!(message_kind("/vmc/ext/bone/pos"), MessageKind::BonePose);
    assert_eq!(message_kind("/VMC/Ext/Blend/Val"), MessageKind::BlendValue);
    assert_eq!(message_kind("/VMC/Ext/Root/Pos"), MessageKind::Other);
}

#[test]
fn parser_maps_head_and_eye_bones() {
    let mut pose: VmcPose<(i32, i32), i32> = VmcPose::new();
    pose.observe_bone(Some(("Head", (10, -5))));
    pose.observe_bone(Some(("LeftEye", (3, 1))));
    pose.observe_bone(Some(("RightEye", (4, 2))));
    pose.observe_bone(Some(("Hips", (99, 99))));
    match pose.frame_parts() {
        Some(((10, -5), EyeChoice::Bones { left: (3, 1), right: (4, 2) })) => {},
        other => panic!("unexpected {:?}", other),
    }
}

#[test]
fn parser_uses_blend_eyes_when_eye_bones_are_missing() {
    let mut pose: VmcPose<i32, i32> = VmcPose::new();
    pose.observe_bone(Some(("Head", 1)));
    pose.observe_blend(Some(("lookleft", 5)));
    assert!(pose.has_any_blend());
    assert_eq!(pose.look_left, Some(5));
    match pose.frame_parts() {
        Some((1, EyeChoice::Blend)) => {},
        other => panic!("unexpected {:?}", other),
    }
}

#[test]
fn parser_ignores_packets_without_head_pose() {
    let mut pose: VmcPose<i32, i32> = VmcPose::new();
    assert!(pose.frame_parts().is_none());
    pose.observe_bone(Some(("LeftEye", 1)));
    assert!(pose.frame_parts().is_none());
    pose.observe_bone(None);
    assert!(pose.frame_parts().is_none());
}

#[test]
fn single_eye_bone_stands_for_both_and_no_eye_data_centres() {
    let mut pose: VmcPose<i32, i32> = VmcPose::new();
    pose.observe_bone(Some(("Head", 1)));
    match pose.frame_parts() {
        Some((1, EyeChoice::Centered)) => {},
        other => panic!("unexpected {:?}", other),
    }
    pose.observe_bone(Some(("Eye_R", 7)));
    match pose.frame_parts() {
        Some((1, EyeChoice::Bones { left: 7, right: 7 })) => {},
        other => panic!("unexpected {:?}", other),
    }
}

#[test]
fn receiver_filters_self_loop_passthrough_target() {
    match check_passthrough_target(" 127.0.0.1:39539 ", 39539) {
        TargetCheck::Rejected { warning } => {
            assert_eq!(warning, "ignored self-loop passthrough target `127.0.0.1:39539`")
        },
        other => panic!("unexpected {:?}", other),
    }
    match check_passthrough_target("127.0.0.1:39540", 39539) {
        TargetCheck::Candidate { trimmed, send_target } => {
            assert_eq!(trimmed, "127.0.0.1:39540");
            assert_eq!(send_target, "127.0.0.1:39540");
        },
        other => panic!("unexpected {:?}", other),
    }
    match check_passthrough_target("nonsense", 39539) {
        TargetCheck::Rejected { warning } => assert_eq!(warning, "ignored invalid passthrough target `nonsense`"),
        other => panic!("unexpected {:?}", other),
    }
    assert!(matches!(check_passthrough_target("  ", 39539), TargetCheck::Blank));
    assert_eq!(unresolved_target_warning("x:1"), "ignored unresolved passthrough target `x:1`");
}

#[test]
fn target_checks_follow_configuration() {
    let mut options = ReceiverOptions::default();
    options.passthrough = PassthroughOptions {
        enabled: false,
        targets: vec!["127.0.0.1:39540".to_owned()],
        ..PassthroughOptions::default()
    };
    assert!(check_passthrough_targets(&options).is_empty());
    options.passthrough.enabled = true;
    options.passthrough.targets.push("".to_owned());
    let checks = check_passthrough_targets(&options);
    assert_eq!(checks.len(), 2);
    assert!(matches!(checks[0], TargetCheck::Candidate { .. }));
    assert!(matches!(checks[1], TargetCheck::Blank));
}

#[test]
fn warnings_join_with_semicolons() {
    assert_eq!(passthrough_warning_summary(&Vec::new()), None);
    assert_eq!(
        passthrough_warning_summary(&vec!["a".to_owned(), "b".to_owned(), "c".to_owned()]),
        Some("a; b; c".to_owned())
    );
}

#[test]
fn reader_counters_account_for_packets() {
    let mut counters = ReaderCounters::default();
    counters.record_packet(5, PacketOutcome::Decoded { emitted: true });
    counters.record_packet(6, PacketOutcome::Decoded { emitted: false });
    counters.record_packet(7, PacketOutcome::Undecodable { reason: "bad osc".to_owned() });
    assert_eq!(counters.udp_packets_received, 3);
    assert_eq!(counters.osc_packets_decoded, 2);
    assert_eq!(counters.frames_emitted, 1);
    assert_eq!(counters.frames_ignored, 2);
    assert_eq!(counters.last_packet_timestamp_ms, Some(7));
    assert_eq!(counters.last_error.as_deref(), Some("bad osc"));
    counters.record_receive_error("timed out");
    assert_eq!(counters.last_error.as_deref(), Some("VMC/OSC UDP receive failed: timed out"));

    counters.udp_packets_received = u64::MAX;
    counters.record_packet(8, PacketOutcome::Decoded { emitted: true });
    assert_eq!(counters.udp_packets_received, u64::MAX);

    let mut stats = ReceiverStats::default();
    stats.passthrough_targets_active = 2;
    stats.absorb_reader(&counters);
    assert_eq!(stats.frames_emitted, 2);
    assert_eq!(stats.passthrough_targets_active, 2);
    assert!(stats.last_error.is_none());
}

#[test]
fn receiver_status_tracks_passthrough() {
    let mut status = VmcReceiverStatus::new();
    status.begin_connect();
    assert_eq!(status.state, ConnectionState::Connecting);
    status.start_passthrough(1, &vec!["w1".to_owned(), "w2".to_owned()]);
    assert_eq!(status.stats.passthrough_last_warning.as_deref(), Some("w1; w2"));
    status.connected();
    assert_eq!(status.state, ConnectionState::Receiving);
    assert!(status.active);
    status.absorb_passthrough(4, 1, 2, None);
    assert_eq!(status.stats.passthrough_packets_forwarded, 4);
    assert_eq!(status.stats.passthrough_last_warning.as_deref(), Some("w1; w2"));
    status.absorb_passthrough(5, 1, 2, Some("later".to_owned()));
    assert_eq!(status.stats.passthrough_last_warning.as_deref(), Some("later"));
    status.worker_spawn_failed();
    assert_eq!(
        status.stats.passthrough_last_warning.as_deref(),
        Some("failed to spawn passthrough worker thread")
    );
    status.record_error("bind failed".to_owned());
    assert_eq!(status.state, ConnectionState::Error);
    assert!(!status.socket_open);
    status.clear_error();
    assert_eq!(status.state, ConnectionState::Disconnected);
    status.connected();
    status.disconnect();
    assert_eq!(status.stats.passthrough_targets_active, 0);
    assert!(!status.active);
}

#[test]
fn worker_accounts_for_each_send() {
    let full = account_send("127.0.0.1:9000", 10, &TargetSend::Sent { bytes: 10 });
    assert!(full.forwarded);
    assert!(full.warning.is_none());
    let short = account_send("127.0.0.1:9000", 10, &TargetSend::Sent { bytes: 4 });
    assert!(!short.forwarded);
    assert_eq!(short.warning.as_deref(), Some("short passthrough send to 127.0.0.1:9000: sent 4 / 10 bytes"));
    let failed = account_send("[::1]:9", 3, &TargetSend::Failed { error: "refused".to_owned() });
    assert_eq!(failed.warning.as_deref(), Some("passthrough send to [::1]:9 failed: refused"));
    assert_eq!(worker_bind_warning("in use"), "passthrough worker bind failed: in use");
}

#[test]
fn idle_diagnostic_for_vmc() {
    let mut stats = ReceiverStats::default();
    assert_eq!(
        vmc_idle_diagnostic_message(&stats, 39539).as_deref(),
        Some("no VMC/OSC packets received yet on UDP port 39539; verify sender target host/port")
    );
    stats.udp_packets_received = 3;
    assert_eq!(
        vmc_idle_diagnostic_message(&stats, 39539).as_deref(),
        Some("VMC/OSC packets were received on UDP port 39539 but no usable head pose was found; verify /VMC/Ext/Bone/Pos for Head")
    );
    stats.last_error = Some("bad packet".to_owned());
    assert_eq!(
        vmc_idle_diagnostic_message(&stats, 39539).as_deref(),
        Some("VMC/OSC packets were received but ignored: bad packet")
    );
    stats.frames_emitted = 1;
    assert_eq!(vmc_idle_diagnostic_message(&stats, 39539), None);
}

#[test]
fn dispatch_drops_when_queue_is_full_or_worker_gone() {
    assert_eq!(drop_warning(SendAttempt::Queued), None);
    assert_eq!(drop_warning(SendAttempt::QueueFull).as_deref(), Some("passthrough queue is full; dropping packet"));

    let (sender, receiver) = sync_channel::<Vec<u8>>(1);
    let dispatch = PassthroughDispatch {
        sender,
        dropped_packets: Arc::new(AtomicU64::new(0)),
        last_warning: Arc::new(Mutex::new(None)),
    };
    assert_eq!(dispatch.forward_payload(&[1, 2, 3]), None);
    assert_eq!(receiver.try_recv().ok(), Some(vec![1, 2, 3]));
    assert_eq!(dispatch.forward_payload(&[4]), None);
    assert_eq!(dispatch.forward_payload(&[5]).as_deref(), Some("passthrough queue is full; dropping packet"));
    assert_eq!(dispatch.dropped_packets.load(Ordering::Relaxed), 1);
    drop(receiver);
    assert_eq!(
        dispatch.forward_payload(&[6]).as_deref(),
        Some("passthrough worker is disconnected; dropping packet")
    );
    assert_eq!(dispatch.dropped_packets.load(Ordering::Relaxed), 2);
    assert_eq!(
        dispatch.last_warning.lock().unwrap().as_deref(),
        Some("passthrough worker is disconnected; dropping packet")
    );
}
