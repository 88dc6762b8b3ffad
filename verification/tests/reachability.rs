use neko_cli::net::{IpAddress, SocketAddress};
use neko_cli::reachability::{
    artifact, json_string, validate, verdict, IpVersion, ProbeOutcome, Transport,
};

fn v4(a: [u8; 4], port: u16) -> SocketAddress {
    SocketAddress { ip: IpAddress::V4(u32::from_be_bytes(a)), port }
}

#[test]
fn rejects_wan_before_socket() {
    assert_eq!(
        validate(v4([192, 0, 2, 1], 9), IpVersion::V4, 100, 1),
        Err("target must be loopback; public/WAN probing is disabled")
    );
}

#[test]
fn rejects_mismatched_family_and_bounds() {
    assert!(validate(v4([127, 0, 0, 1], 9), IpVersion::V6, 100, 1).is_err());
    assert!(validate(v4([127, 0, 0, 1], 9), IpVersion::V4, 5001, 1).is_err());
    assert!(validate(v4([127, 0, 0, 1], 9), IpVersion::V4, 100, 1201).is_err());
}

#[test]
fn validation_messages_and_loopback_forms() {
    let v6_loopback = SocketAddress { ip: IpAddress::V6(1), port: 9 };
    assert_eq!(validate(v6_loopback, IpVersion::V6, 1, 1), Ok(()));
    assert_eq!(validate(v6_loopback, IpVersion::V4, 1, 1), Err("IP version does not match target"));
    assert_eq!(validate(v4([127, 9, 9, 9], 1), IpVersion::V4, 5000, 1200), Ok(()));
    assert_eq!(validate(v4([127, 0, 0, 1], 0), IpVersion::V4, 1, 1), Err("target port must be non-zero"));
    assert_eq!(validate(v4([127, 0, 0, 1], 9), IpVersion::V4, 0, 1), Err("timeout must be 1-5000 ms"));
    assert_eq!(validate(v4([127, 0, 0, 1], 9), IpVersion::V4, 1, 0), Err("payload must be 1-1200 bytes"));
    let mapped = SocketAddress { ip: IpAddress::V6(0xffff_7f00_0001), port: 9 };
    assert!(validate(mapped, IpVersion::V6, 1, 1).is_err());
    assert_eq!(Transport::Tcp.as_str(), "tcp");
    assert_eq!(Transport::Udp.as_str(), "udp");
    assert_eq!(IpVersion::V4.as_str(), "ipv4");
    assert_eq!(IpVersion::V6.as_str(), "ipv6");
}

#[test]
fn json_strings_escape_quotes_and_controls() {
    assert_eq!(json_string("127.0.0.1:9"), "\"127.0.0.1:9\"");
    assert_eq!(json_string("a\"b\\c\nd\re\tf"), "\"a\\\"b\\\\c\\nd\\re\\tf\"");
    assert_eq!(json_string("\u{1}\u{7f}\u{9f}\u{a0}"), "\"\\u0001\\u007f\\u009f\u{a0}\"");
    assert_eq!(json_string(""), "\"\"");
}

#[test]
fn artifact_is_stable_except_explicit_observation_time() {
    let s = artifact(
        Transport::Tcp,
        IpVersion::V4,
        "127.0.0.1:9",
        &ProbeOutcome::Failed("connection refused".to_string()),
    );
    assert!(s.contains("reachability-matrix.v1"));
    assert!(s.contains("local-loopback"));
    assert!(s.contains("\"reachable\":false"));
    assert_eq!(
        s,
        "{\"schema_version\":\"reachability-matrix.v1\",\"observed_at_unix_ms\":null,\"scope\":\"local-loopback\",\"metadata\":{\"privileged\":false,\"raw_protocol\":false,\"third_party_scan\":false},\"cases\":[{\"transport\":\"tcp\",\"ip_version\":\"ipv4\",\"target\":\"127.0.0.1:9\",\"reachable\":false,\"rtt_ms\":null,\"payload_bytes\":0,\"error\":\"connection refused\"}]}"
    );
}

#[test]
fn artifact_of_reached_and_refused_cases() {
    let reached = artifact(
        Transport::Udp,
        IpVersion::V6,
        "[::1]:40080",
        &ProbeOutcome::Reached { rtt_ms: "0.125".to_string(), bytes: 32 },
    );
    assert!(reached.ends_with(
        "\"transport\":\"udp\",\"ip_version\":\"ipv6\",\"target\":\"[::1]:40080\",\"reachable\":true,\"rtt_ms\":0.125,\"payload_bytes\":32,\"error\":null}]}"
    ));
    let refused = artifact(
        Transport::Tcp,
        IpVersion::V4,
        "10.0.0.1:\"9\"",
        &ProbeOutcome::Refused("target must be loopback; public/WAN probing is disabled"),
    );
    assert!(refused.contains("\"target\":\"10.0.0.1:\\\"9\\\"\""));
    assert!(refused.ends_with(
        "\"reachable\":false,\"rtt_ms\":null,\"payload_bytes\":0,\"error\":\"target must be loopback; public/WAN probing is disabled\"}]}"
    ));
}

#[test]
fn verdict_mews_and_exits_by_reachability() {
    let reached = ProbeOutcome::Reached { rtt_ms: "1.000".to_string(), bytes: 1 };
    assert_eq!(verdict(&reached), ("喵~！", 0));
    assert_eq!(verdict(&ProbeOutcome::Failed("timed out".to_string())), ("喵呜呜呜呜…", 1));
    assert_eq!(verdict(&ProbeOutcome::Refused("target port must be non-zero")), ("喵呜呜呜呜…", 1));
}
