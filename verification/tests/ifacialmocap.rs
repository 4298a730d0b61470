use unvet::errors::AppError;
use unvet::ifacialmocap::{
    idle_diagnostic_message, is_tcp_delimiter, next_tcp_frame, packet_segments, require_pose_fields,
    tcp_frame_payload, trim_tcp_reassembly_buffer, triplet_components, ConnectionState, ReceiverOptions,
    ReceiverStats, ReceiverStatus, SegmentKind, TCP_REASSEMBLY_MAX_BYTES,
};

fn segments(packet: &str) -> Vec<(SegmentKind, String)> {
    packet_segments(packet).into_iter().map(|s| (s.kind, s.value)).collect()
}

#[test]
fn parse_tracking_frame_extracts_head_and_eye_values() {
    let packet = "head#2.5,-1.5,0.4|leftEye#1.2,-0.4,0.0|rightEye#1.6,-0.6,0.0|confidence#0.92";
    assert_eq!(
        segments(packet),
        vec![
            (SegmentKind::Head, "2.5,-1.5,0.4".to_owned()),
            (SegmentKind::LeftEye, "1.2,-0.4,0.0".to_owned()),
            (SegmentKind::RightEye, "1.6,-0.6,0.0".to_owned()),
            (SegmentKind::Confidence, "0.92".to_owned()),
        ]
    );
    assert_eq!(triplet_components("2.5,-1.5,0.4"), vec!["2.5".to_owned(), "-1.5".to_owned(), "0.4".to_owned()]);
}

#[test]
fn parse_tracking_frame_accepts_prefixed_head_segment() {
    let packet = "=head#2.5,-1.5,0.4|leftEye#1.2,-0.4,0.0|rightEye#1.6,-0.6,0.0|confidence#0.92";
    let segs = segments(packet);
    assert_eq!(segs[0], (SegmentKind::Head, "2.5,-1.5,0.4".to_owned()));
    assert_eq!(segs.len(), 4);
}

#[test]
fn parse_tracking_frame_requires_head_and_both_eyes() {
    let packet = "head#2.5,-1.5,0.4|leftEye#1.2,-0.4,0.0";
    let mut head = None;
    let mut left = None;
    let mut right = None;
    for seg in packet_segments(packet) {
        match seg.kind {
            SegmentKind::Head => head = Some(1),
            SegmentKind::LeftEye => left = Some(2),
            SegmentKind::RightEye => right = Some(3),
            SegmentKind::Confidence => {},
        }
    }
    let error = require_pose_fields(head, left, right).expect_err("missing rightEye should fail");
    assert!(error.message().contains("rightEye field is missing"));
}

#[test]
fn pose_fields_report_the_first_missing_one() {
    match require_pose_fields::<u8>(None, None, None) {
        Err(AppError::InvalidData(m)) => assert_eq!(m, "head field is missing"),
        _ => panic!("expected missing head"),
    }
    match require_pose_fields(Some(1u8), None, Some(3)) {
        Err(AppError::InvalidData(m)) => assert_eq!(m, "leftEye field is missing"),
        _ => panic!("expected missing left eye"),
    }
    assert_eq!(require_pose_fields(Some(1u8), Some(2), Some(3)).ok(), Some((1, 2, 3)));
}

#[test]
fn segments_skip_blank_and_unknown_pieces() {
    assert_eq!(
        segments(" mouthSmile-3 | | head# 1,2,3 |x#1| confidence#0.5|"),
        vec![(SegmentKind::Head, " 1,2,3".to_owned()), (SegmentKind::Confidence, "0.5".to_owned())]
    );
    assert!(segments("").is_empty());
    assert_eq!(triplet_components(" a , b "), vec!["a".to_owned(), "b".to_owned()]);
    assert_eq!(triplet_components("1,2,3,4"), vec!["1".to_owned(), "2".to_owned(), "3".to_owned()]);
}

#[test]
fn tcp_frames_split_on_delimiters() {
    assert!(is_tcp_delimiter(b'\n'));
    assert!(is_tcp_delimiter(b'\r'));
    assert!(is_tcp_delimiter(0));
    assert!(!is_tcp_delimiter(b'|'));

    let mut buffer = b"head#1,2,3|leftEye#1,2,3\nhead#4".to_vec();
    assert_eq!(next_tcp_frame(&mut buffer), Some(b"head#1,2,3|leftEye#1,2,3".to_vec()));
    assert_eq!(buffer, b"head#4".to_vec());
    assert_eq!(next_tcp_frame(&mut buffer), None);
    assert_eq!(buffer, b"head#4".to_vec());
    buffer.extend_from_slice(b",5,6\r\n");
    assert_eq!(next_tcp_frame(&mut buffer), Some(b"head#4,5,6".to_vec()));
    assert_eq!(next_tcp_frame(&mut buffer), Some(Vec::new()));
    assert!(buffer.is_empty());
}

#[test]
fn frame_payload_strips_controls_and_whitespace() {
    assert_eq!(tcp_frame_payload("\r\n  head#1,2,3 \0"), Some("head#1,2,3".to_owned()));
    assert_eq!(tcp_frame_payload("\r\n\0"), None);
    assert_eq!(tcp_frame_payload("   "), None);
}

#[test]
fn reassembly_buffer_keeps_newest_bytes() {
    let mut small = vec![1u8; 10];
    assert_eq!(trim_tcp_reassembly_buffer(&mut small), None);
    assert_eq!(small.len(), 10);

    let mut big = vec![0u8; TCP_REASSEMBLY_MAX_BYTES + 3];
    let n = big.len();
    big[n - 1] = 9;
    assert_eq!(trim_tcp_reassembly_buffer(&mut big), Some(3));
    assert_eq!(big.len(), TCP_REASSEMBLY_MAX_BYTES);
    assert_eq!(big[TCP_REASSEMBLY_MAX_BYTES - 1], 9);
}

#[test]
fn stats_record_parsed_and_dropped_frames() {
    let mut stats = ReceiverStats::default();
    stats.note_frame_parsed();
    stats.note_frame_dropped("bad".to_owned());
    stats.note_reassembly_overflow(12);
    assert_eq!(stats.frames_parsed, 1);
    assert_eq!(stats.frames_dropped, 2);
    assert_eq!(stats.last_error.as_deref(), Some("TCP reassembly buffer overflow: dropped 12 byte(s)"));
}

#[test]
fn idle_diagnostics_explain_missing_frames() {
    let mut options = ReceiverOptions::default();
    options.host = "LocalHost".to_owned();
    let mut stats = ReceiverStats::default();
    assert_eq!(
        idle_diagnostic_message(&stats, &options).as_deref(),
        Some("no tracking packets received from LocalHost:49983 yet; verify iFacialMocap target IP/port and config input.host; current input.host is loopback, so set it to your iFacialMocap device IP")
    );
    options.host = "192.168.1.20".to_owned();
    assert_eq!(
        idle_diagnostic_message(&stats, &options).as_deref(),
        Some("no tracking packets received from 192.168.1.20:49983 yet; verify iFacialMocap target IP/port and config input.host")
    );
    stats.frames_dropped = 1;
    assert_eq!(
        idle_diagnostic_message(&stats, &options).as_deref(),
        Some("tracking packets could not be parsed: unknown parsing error")
    );
    stats.last_error = Some("bad triplet".to_owned());
    assert_eq!(
        idle_diagnostic_message(&stats, &options).as_deref(),
        Some("tracking packets could not be parsed: bad triplet")
    );
    stats.frames_parsed = 1;
    assert_eq!(idle_diagnostic_message(&stats, &options), None);
}

#[test]
fn receiver_status_transitions() {
    let mut status = ReceiverStatus::new();
    assert_eq!(status.state, ConnectionState::Disconnected);
    status.begin_connect();
    assert_eq!(status.state, ConnectionState::Connecting);
    status.connected();
    assert!(status.active);
    assert_eq!(status.state, ConnectionState::Receiving);
    status.record_error("boom".to_owned());
    assert_eq!(status.state, ConnectionState::Error);
    assert!(!status.active);
    status.clear_error();
    assert_eq!(status.state, ConnectionState::Receiving);
    assert!(status.stats.last_error.is_none());
    status.disconnect();
    status.clear_error();
    assert_eq!(status.state, ConnectionState::Disconnected);
    assert!(!status.active);
    status.frame_received();
    assert_eq!(status.state, ConnectionState::Receiving);
}

#[test]
fn reassembly_gives_the_same_frames_however_the_stream_is_cut() {
    let stream = b"head#1,2,3\nleftEye#4,5\r\0rightEye#6,7\n".to_vec();
    let mut whole = stream.clone();
    let mut expected = Vec::new();
    while let Some(frame) = next_tcp_frame(&mut whole) {
        expected.push(frame);
    }
    for cut in 0..=stream.len() {
        let mut buffer = stream[..cut].to_vec();
        let mut frames = Vec::new();
        while let Some(frame) = next_tcp_frame(&mut buffer) {
            frames.push(frame);
        }
        buffer.extend_from_slice(&stream[cut..]);
        while let Some(frame) = next_tcp_frame(&mut buffer) {
            frames.push(frame);
        }
        assert_eq!(frames, expected, "cut at {cut}");
        assert!(buffer.is_empty());
    }
}
