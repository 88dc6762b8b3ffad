use neko_cli::matrix::{
    matrix_probe_args, scan_matrix_options, MatrixArgError, MatrixOptions, MatrixProbeArgs,
};
use neko_cli::net::{IpAddress, SocketAddress};
use neko_cli::reachability::{IpVersion, Transport};

fn args(values: &[&str]) -> Vec<String> {
    values.iter().map(|s| s.to_string()).collect()
}

fn v4_loopback(port: u16) -> SocketAddress {
    SocketAddress { ip: IpAddress::V4(0x7f00_0001), port }
}

fn options(values: &[&str]) -> MatrixOptions {
    scan_matrix_options(&args(values)).expect("options scan")
}

#[test]
fn matrix_options_are_scanned_in_any_order() {
    let o = options(&[
        "probe", "--transport", "udp", "--matrix", "--target", "127.0.0.1:9", "--json",
        "--ip-version", "ipv4", "--bytes", "64", "--timeout-ms", "250",
    ]);
    assert!(o.json);
    assert_eq!(o.target.as_deref(), Some("127.0.0.1:9"));
    assert_eq!(o.transport.as_deref(), Some("udp"));
    assert_eq!(o.ip_version.as_deref(), Some("ipv4"));
    assert_eq!(o.timeout_ms.as_deref(), Some("250"));
    assert_eq!(o.bytes.as_deref(), Some("64"));
}

#[test]
fn matrix_option_refusals_name_the_option() {
    assert_eq!(
        scan_matrix_options(&args(&["probe", "--matrix", "--matrix"])).unwrap_err(),
        MatrixArgError::Duplicate("--matrix".to_string())
    );
    assert_eq!(
        scan_matrix_options(&args(&["probe", "--matrix", "--json", "--json"])).unwrap_err(),
        MatrixArgError::Duplicate("--json".to_string())
    );
    assert_eq!(
        scan_matrix_options(&args(&["probe", "--matrix", "--bytes", "1", "--bytes", "2"]))
            .unwrap_err(),
        MatrixArgError::Duplicate("--bytes".to_string())
    );
    assert_eq!(
        scan_matrix_options(&args(&["probe", "--matrix", "--target"])).unwrap_err(),
        MatrixArgError::MissingValue("--target".to_string())
    );
    assert_eq!(
        scan_matrix_options(&args(&["probe", "--matrix", "--transport", "--json"])).unwrap_err(),
        MatrixArgError::MissingValue("--transport".to_string())
    );
    assert_eq!(
        scan_matrix_options(&args(&["probe", "--matrix", "--port", "1"])).unwrap_err(),
        MatrixArgError::Unknown("--port".to_string())
    );
    assert_eq!(
        scan_matrix_options(&args(&["probe", "--json"])).unwrap_err(),
        MatrixArgError::MissingMatrix
    );
}

#[test]
fn matrix_request_takes_defaults() {
    let o = options(&["probe", "--matrix", "--transport", "tcp", "--ip-version", "ipv4"]);
    assert_eq!(
        matrix_probe_args(&o, v4_loopback(4000)),
        Ok(MatrixProbeArgs {
            target: v4_loopback(4000),
            transport: Transport::Tcp,
            version: IpVersion::V4,
            timeout_ms: 500,
            bytes: 32,
            json: false,
        })
    );
}

#[test]
fn matrix_request_checks_in_order() {
    let o = options(&["probe", "--matrix", "--transport", "quic", "--ip-version", "ipv9"]);
    assert_eq!(matrix_probe_args(&o, v4_loopback(1)), Err("--transport must be tcp or udp"));
    let o = options(&["probe", "--matrix", "--transport", "udp", "--ip-version", "ipv9"]);
    assert_eq!(matrix_probe_args(&o, v4_loopback(1)), Err("--ip-version must be ipv4 or ipv6"));
    let o = options(&[
        "probe", "--matrix", "--transport", "udp", "--ip-version", "ipv6", "--timeout-ms", "x",
    ]);
    assert_eq!(matrix_probe_args(&o, v4_loopback(1)), Err("invalid --timeout-ms"));
    let o = options(&[
        "probe", "--matrix", "--transport", "udp", "--ip-version", "ipv6", "--bytes", "-3",
    ]);
    assert_eq!(matrix_probe_args(&o, v4_loopback(1)), Err("invalid --bytes"));
    let o = options(&["probe", "--matrix", "--transport", "udp", "--ip-version", "ipv6"]);
    assert_eq!(matrix_probe_args(&o, v4_loopback(1)), Err("IP version does not match target"));
    let public = SocketAddress { ip: IpAddress::V4(0x0808_0808), port: 53 };
    assert_eq!(
        matrix_probe_args(&o, public),
        Err("target must be loopback; public/WAN probing is disabled")
    );
    let o = options(&[
        "probe", "--matrix", "--transport", "udp", "--ip-version", "ipv4", "--timeout-ms", "5001",
    ]);
    assert_eq!(matrix_probe_args(&o, v4_loopback(1)), Err("timeout must be 1-5000 ms"));
    let o = options(&[
        "probe", "--matrix", "--transport", "udp", "--ip-version", "ipv6", "--bytes", "1200",
        "--timeout-ms", "+5000", "--json",
    ]);
    let v6 = SocketAddress { ip: IpAddress::V6(1), port: 7 };
    assert_eq!(
        matrix_probe_args(&o, v6),
        Ok(MatrixProbeArgs {
            target: v6,
            transport: Transport::Udp,
            version: IpVersion::V6,
            timeout_ms: 5000,
            bytes: 1200,
            json: true,
        })
    );
}
