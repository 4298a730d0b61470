use unvet::passthrough::{
    format_passthrough_target, format_target_for_send, is_self_loop_target, parse_passthrough_target,
    parse_target_host_port, sanitize_passthrough_targets,
};

#[test]
fn parses_plain_and_bracketed_targets() {
    assert_eq!(parse_passthrough_target(" 127.0.0.1:39540 "), Some(("127.0.0.1".to_owned(), 39540)));
    assert_eq!(parse_passthrough_target("LocalHost:9000"), Some(("localhost".to_owned(), 9000)));
    assert_eq!(parse_passthrough_target("[::1]:39540"), Some(("::1".to_owned(), 39540)));
    assert_eq!(parse_passthrough_target("[ FE80::1 ]: 80"), Some(("fe80::1".to_owned(), 80)));
    assert_eq!(parse_target_host_port("host:+80"), Some(("host".to_owned(), 80)));
}

#[test]
fn rejects_malformed_targets() {
    assert_eq!(parse_passthrough_target(""), None);
    assert_eq!(parse_passthrough_target("host"), None);
    assert_eq!(parse_passthrough_target("host:0"), None);
    assert_eq!(parse_passthrough_target("host:65536"), None);
    assert_eq!(parse_passthrough_target(":80"), None);
    assert_eq!(parse_passthrough_target("::1:80"), None);
    assert_eq!(parse_passthrough_target("[]:80"), None);
    assert_eq!(parse_passthrough_target("[::1]80"), None);
    assert_eq!(parse_passthrough_target("[::1]:1:2"), None);
    assert_eq!(parse_passthrough_target("[::1"), None);
}

#[test]
fn formats_ipv6_hosts_in_brackets() {
    assert_eq!(format_passthrough_target("::1", 39540), "[::1]:39540");
    assert_eq!(format_passthrough_target("localhost", 9000), "localhost:9000");
    assert_eq!(format_target_for_send("fe80::1", 1), "[fe80::1]:1");
}

#[test]
fn format_then_parse_gives_back_the_target() {
    for (host, port) in [("127.0.0.1", 1u16), ("::1", 65535), ("example.org", 39540)] {
        let text = format_passthrough_target(host, port);
        assert_eq!(parse_passthrough_target(&text), Some((host.to_owned(), port)));
    }
}

#[test]
fn sanitize_trims_skips_blanks_and_deduplicates() {
    let targets = vec![
        " 127.0.0.1:39540".to_owned(),
        "".to_owned(),
        "   ".to_owned(),
        "LOCALHOST:9000".to_owned(),
        "localhost:9000".to_owned(),
        "[::1]:39540".to_owned(),
    ];
    assert_eq!(
        sanitize_passthrough_targets(targets),
        Ok(vec!["127.0.0.1:39540".to_owned(), "localhost:9000".to_owned(), "[::1]:39540".to_owned()])
    );
}

#[test]
fn sanitize_reports_the_first_invalid_target() {
    let targets = vec!["127.0.0.1:1".to_owned(), " bad-target ".to_owned(), "host:0".to_owned()];
    assert_eq!(
        sanitize_passthrough_targets(targets),
        Err("invalid passthrough target `bad-target` (expected host:port with port 1-65535)".to_owned())
    );
}

#[test]
fn self_loop_targets_are_local_hosts_on_the_listening_port() {
    assert!(is_self_loop_target("127.0.0.1", 39539, 39539));
    assert!(is_self_loop_target("localhost", 39539, 39539));
    assert!(is_self_loop_target("::", 39539, 39539));
    assert!(is_self_loop_target("0.0.0.0", 39539, 39539));
    assert!(!is_self_loop_target("127.0.0.1", 39540, 39539));
    assert!(!is_self_loop_target("192.168.1.2", 39539, 39539));
}
