use neko_cli::cli::{
    carrier_retired_fields, common, diagnostic_id, diagnostic_mode, exchange_count,
    command, failover_role, json_mode, lab_scenario, option, parse, parse_scenario,
    payload_file_request, workload_duration_valid, CliError, Command, LabScenario,
    FailoverRole,
};

fn args(values: &[&str]) -> Vec<String> {
    values.iter().map(|s| s.to_string()).collect()
}

#[test]
fn carrier_retired_fields_projects_every_retired_packet() {
    let fields = carrier_retired_fields(&[4, 5, 6]);
    assert_eq!(fields.len(), 3);
    assert!(fields[0].contains("\"packet_number\":4"));
    assert!(fields[1].contains("\"packet_number\":5"));
    assert!(fields[2].contains("\"packet_number\":6"));
    assert!(fields.iter().all(|f| f.contains("\"retired\":true")));
    let one = carrier_retired_fields(&[7]);
    assert_eq!(one.len(), 1);
}

#[test]
fn carrier_retired_field_is_exact() {
    assert_eq!(
        carrier_retired_fields(&[1234567890123]),
        vec![",\"applied\":true,\"packet_number\":1234567890123,\"retired\":true".to_string()]
    );
    assert_eq!(
        carrier_retired_fields(&[0, u64::MAX]),
        vec![
            ",\"applied\":true,\"packet_number\":0,\"retired\":true".to_string(),
            ",\"applied\":true,\"packet_number\":18446744073709551615,\"retired\":true".to_string(),
        ]
    );
    assert!(carrier_retired_fields(&[]).is_empty());
}

#[test]
fn health_observe_arguments_are_bounded_and_parseable() {
    let args = args(&[
        "health-observe",
        "--path",
        "7",
        "--rtt-us",
        "1200",
        "--loss-per-mille",
        "0",
        "--pto",
        "0",
        "--count",
        "2",
        "--json",
    ]);
    assert_eq!(exchange_count(&args), Ok(2));
    assert!(json_mode(&args));
}

#[test]
fn json_mode_is_detected_without_affecting_address_family() {
    assert!(json_mode(&args(&["probe", "--json"])));
    assert!(!json_mode(&args(&["probe", "--jsonx"])));
    assert!(!json_mode(&[]));
}

#[test]
fn workload_duration_boundary_is_strictly_bounded() {
    assert!(!workload_duration_valid(0));
    assert!(workload_duration_valid(1));
    assert!(workload_duration_valid(300));
    assert!(workload_duration_valid(600));
    assert!(!workload_duration_valid(601));
    assert!(!workload_duration_valid(u64::MAX));
}

#[test]
fn failover_gate_arguments_are_bounded_and_loopback_explicit() {
    let args = args(&[
        "failover",
        "--count",
        "3",
        "--bytes",
        "16",
        "--duration",
        "2",
        "--udp-port",
        "40081",
        "--tcp-port",
        "40080",
        "--loopback-only",
    ]);
    assert_eq!(exchange_count(&args), Ok(3));
    assert!(args.iter().any(|a| a == "--loopback-only"));
}

#[test]
fn exchange_count_defaults_and_bounds() {
    assert_eq!(exchange_count(&args(&["client"])), Ok(1));
    assert_eq!(exchange_count(&args(&["client", "--count", "64"])), Ok(64));
    assert_eq!(exchange_count(&args(&["client", "--count", "+7"])), Ok(7));
    assert_eq!(exchange_count(&args(&["client", "--count", "0"])), Err("count outside 1-64"));
    assert_eq!(exchange_count(&args(&["client", "--count", "65"])), Err("count outside 1-64"));
    assert_eq!(exchange_count(&args(&["client", "--count", "x"])), Err("invalid count"));
    assert_eq!(exchange_count(&args(&["client", "--count", "-1"])), Err("invalid count"));
    assert_eq!(exchange_count(&args(&["client", "--count", ""])), Err("invalid count"));
    // A key in the last position has no value and is not a pair.
    assert_eq!(exchange_count(&args(&["client", "--count"])), Ok(1));
    assert_eq!(
        exchange_count(&args(&["client", "--count", "99999999999999999999999"])),
        Err("invalid count")
    );
}

#[test]
fn option_takes_the_first_pair() {
    let a = args(&["x", "--k", "1", "--k", "2"]);
    assert_eq!(option(&a, "--k"), Some("1".to_string()));
    assert_eq!(option(&a, "--other"), None);
    assert_eq!(parse(&a, "--other", Some("d")), Some("d".to_string()));
    assert_eq!(parse(&a, "--other", None), None);
    // The value of a pair may itself look like a key.
    let b = args(&["--a", "--b", "v"]);
    assert_eq!(option(&b, "--a"), Some("--b".to_string()));
}

#[test]
fn common_options_are_checked_in_order() {
    let ok = common(&args(&["client", "--transport", "udp", "--port", "40090"])).unwrap();
    assert_eq!((ok.transport.as_str(), ok.port, ok.bytes, ok.duration_secs), ("udp", 40090, 32, 10));
    assert_eq!(common(&args(&["client"])).unwrap_err(), CliError::Missing("--transport"));
    assert_eq!(
        common(&args(&["client", "--transport", "sctp", "--port", "1"])).unwrap_err(),
        CliError::Invalid("transport must be tcp or udp")
    );
    assert_eq!(
        common(&args(&["client", "--transport", "tcp"])).unwrap_err(),
        CliError::Missing("--port")
    );
    assert_eq!(
        common(&args(&["client", "--transport", "tcp", "--port", "70000"])).unwrap_err(),
        CliError::Invalid("invalid port")
    );
    assert_eq!(
        common(&args(&["client", "--transport", "tcp", "--port", "40101"])).unwrap_err(),
        CliError::Invalid("port outside 40080-40100")
    );
    assert_eq!(
        common(&args(&["c", "--transport", "tcp", "--port", "40080", "--bytes", "1201"]))
            .unwrap_err(),
        CliError::Invalid("bytes outside 1-1200")
    );
    assert_eq!(
        common(&args(&["c", "--transport", "tcp", "--port", "40080", "--duration", "31"]))
            .unwrap_err(),
        CliError::Invalid("duration outside 1-30")
    );
    assert_eq!(
        common(&args(&["c", "--transport", "tcp", "--port", "40080", "--duration", "z"]))
            .unwrap_err(),
        CliError::Invalid("invalid duration")
    );
    let full = common(&args(&[
        "c", "--transport", "tcp", "--port", "40100", "--bytes", "1200", "--duration", "30",
    ]))
    .unwrap();
    assert_eq!((full.port, full.bytes, full.duration_secs), (40100, 1200, 30));
}

#[test]
fn diagnostic_ids_are_bounded_and_plain() {
    assert!(diagnostic_mode(&args(&["server", "--diagnostic"])));
    assert_eq!(
        diagnostic_id(&args(&["server", "--diagnostic"])),
        Err("--diagnostic requires --experiment-id")
    );
    assert_eq!(
        diagnostic_id(&args(&["s", "--experiment-id", "run-1.a_b"])),
        Ok("run-1.a_b".to_string())
    );
    assert_eq!(diagnostic_id(&args(&["s", "--experiment-id", "short"])), Err("invalid experiment id"));
    assert_eq!(
        diagnostic_id(&args(&["s", "--experiment-id", "has space!"])),
        Err("invalid experiment id")
    );
    assert_eq!(
        diagnostic_id(&args(&["s", "--experiment-id", "caf\u{e9}-run-1"])),
        Err("invalid experiment id")
    );
    let long = "a".repeat(72);
    assert_eq!(diagnostic_id(&args(&["s", "--experiment-id", &long])), Ok(long.clone()));
    let too_long = "a".repeat(73);
    assert_eq!(diagnostic_id(&args(&["s", "--experiment-id", &too_long])), Err("invalid experiment id"));
}

#[test]
fn lab_scenario_is_unique_and_has_a_value() {
    assert_eq!(parse_scenario(&args(&["lab"])), Ok(None));
    assert_eq!(
        parse_scenario(&args(&["lab", "--scenario", "reliable-udp", "--json"])),
        Ok(Some("reliable-udp".to_string()))
    );
    assert_eq!(
        parse_scenario(&args(&["lab", "--scenario", "a", "--scenario", "b"])),
        Err("duplicate --scenario")
    );
    assert_eq!(parse_scenario(&args(&["lab", "--scenario"])), Err("missing --scenario value"));
    assert_eq!(
        parse_scenario(&args(&["lab", "--scenario", "--json"])),
        Err("missing --scenario value")
    );
    // The command itself is not an option.
    assert_eq!(parse_scenario(&args(&["--scenario", "x"])), Ok(None));
}

#[test]
fn failover_role_comes_from_the_command_or_role() {
    assert_eq!(failover_role(&args(&["failover-server"])), Ok(FailoverRole::Server));
    assert_eq!(failover_role(&args(&["failover-client"])), Ok(FailoverRole::Client));
    assert_eq!(failover_role(&args(&["failover", "--role", "client"])), Ok(FailoverRole::Client));
    assert_eq!(failover_role(&args(&["failover", "--role", "server"])), Ok(FailoverRole::Server));
    assert_eq!(failover_role(&args(&["failover"])), Err(CliError::Missing("--role")));
    assert_eq!(
        failover_role(&args(&["failover", "--role", "proxy"])),
        Err(CliError::Invalid("failover --role must be server or client"))
    );
    assert_eq!(
        failover_role(&args(&["other"])),
        Err(CliError::Invalid("use failover --role server|client"))
    );
}

#[test]
fn payload_file_needs_tcp_single_exchange_and_json() {
    let a = args(&["client", "--payload-file", "p.bin", "--json"]);
    assert_eq!(payload_file_request(&a, "tcp", 1), Ok(Some("p.bin".to_string())));
    assert_eq!(
        payload_file_request(&a, "udp", 1),
        Err("--payload-file requires TCP, --count 1, and --json")
    );
    assert_eq!(
        payload_file_request(&a, "tcp", 2),
        Err("--payload-file requires TCP, --count 1, and --json")
    );
    let no_json = args(&["client", "--payload-file", "p.bin"]);
    assert_eq!(
        payload_file_request(&no_json, "tcp", 1),
        Err("--payload-file requires TCP, --count 1, and --json")
    );
    assert_eq!(payload_file_request(&args(&["client", "--json"]), "udp", 9), Ok(None));
}

#[test]
fn commands_are_named_by_the_first_argument() {
    assert_eq!(command(&args(&[])), Command::Help);
    assert_eq!(command(&args(&["--help"])), Command::Help);
    assert_eq!(command(&args(&["server", "--matrix"])), Command::Server);
    assert_eq!(command(&args(&["probe", "--json", "--matrix"])), Command::MatrixProbe);
    assert_eq!(command(&args(&["probe", "--json"])), Command::Client);
    assert_eq!(command(&args(&["client", "--matrix"])), Command::Client);
    assert_eq!(command(&args(&["failover-client"])), Command::Failover);
    assert_eq!(command(&args(&["failover-server"])), Command::Failover);
    assert_eq!(command(&args(&["capabilities", "--json"])), Command::Capabilities);
    assert_eq!(command(&args(&["endpoint-rebind-client"])), Command::EndpointRebindClient);
    assert_eq!(command(&args(&["keygen"])), Command::Keygen);
    assert_eq!(command(&args(&["Server"])), Command::Unknown);
    assert_eq!(command(&args(&["--json"])), Command::Unknown);
}

#[test]
fn lab_scenarios() {
    assert_eq!(lab_scenario(&args(&["lab", "--json"])), Ok(LabScenario::Timeline));
    assert_eq!(
        lab_scenario(&args(&["lab", "--scenario", "reliable-udp"])),
        Ok(LabScenario::ReliableUdp)
    );
    assert_eq!(
        lab_scenario(&args(&["lab", "--scenario", "tcp-only"])),
        Err("unknown lab scenario: tcp-only".to_string())
    );
    assert_eq!(
        lab_scenario(&args(&["lab", "--scenario"])),
        Err("missing --scenario value".to_string())
    );
}
