use neko_cli::capabilities::{capabilities_args_valid, capabilities_json, capabilities_text};

fn args(values: &[&str]) -> Vec<String> {
    values.iter().map(|s| s.to_string()).collect()
}

#[test]
fn capabilities_accepts_only_json() {
    assert!(capabilities_args_valid(&args(&["capabilities"])));
    assert!(capabilities_args_valid(&args(&["capabilities", "--json", "--json"])));
    assert!(!capabilities_args_valid(&args(&["capabilities", "--json", "--verbose"])));
}

#[test]
fn capabilities_json_carries_the_limits() {
    let json = capabilities_json("0.1.0", "linux", "x86_64");
    assert!(json.starts_with(
        "{\"schema\":\"nekomusume.capabilities.v1\",\"package_version\":\"0.1.0\",\"target_os\":\"linux\",\"target_arch\":\"x86_64\",\"secret_free\":true,"
    ));
    assert!(json.contains(
        "\"limits\":{\"bytes_max\":1200,\"count_max\":64,\"duration_seconds_max\":30,\"workload_duration_seconds_max\":600,\"port_min\":40080,\"port_max\":40100},"
    ));
    assert!(json.contains("{\"name\":\"keygen\",\"maturity\":\"utility\"}"));
    assert!(json.ends_with("{\"name\":\"capabilities\",\"maturity\":\"utility\"}]}"));
    assert_eq!(json.matches("\"name\":").count(), 16);
}

#[test]
fn capabilities_text_lines() {
    let text = capabilities_text("0.1.0", "linux", "aarch64");
    let lines: Vec<&str> = text.lines().collect();
    assert_eq!(lines.len(), 6);
    assert_eq!(lines[0], "nekomusume 0.1.0 (linux/aarch64)");
    assert_eq!(lines[1], "defaults bytes=32 count=1 duration_seconds=10");
    assert_eq!(
        lines[2],
        "limits bytes=1-1200 count=1-64 duration_seconds=1-30 workload_duration_seconds=1-600 ports=40080-40100"
    );
    assert_eq!(lines[5], "report_secret_free=true");
    assert!(text.ends_with('\n'));
}
