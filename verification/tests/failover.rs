use neko_cli::failover::{
    endpoint_rebind_args, failover_args, failover_client_flags, failover_server_seams,
    EndpointRebindArgs, FailoverArgs, FailoverClientFlags, FailoverServerSeams,
};

fn args(values: &[&str]) -> Vec<String> {
    values.iter().map(|s| s.to_string()).collect()
}

#[test]
fn failover_shape_defaults_and_bounds() {
    assert_eq!(
        failover_args(&args(&["failover", "--role", "client"])),
        Ok(FailoverArgs { count: 1, bytes: 32, duration_secs: 10, udp_port: 40081, tcp_port: 40080 })
    );
    let a = args(&[
        "failover", "--count", "3", "--bytes", "16", "--duration", "2", "--udp-port", "40081",
        "--tcp-port", "40080", "--loopback-only",
    ]);
    assert_eq!(
        failover_args(&a),
        Ok(FailoverArgs { count: 3, bytes: 16, duration_secs: 2, udp_port: 40081, tcp_port: 40080 })
    );
    assert_eq!(failover_args(&args(&["failover", "--count", "65"])), Err("count outside 1-64"));
    assert_eq!(failover_args(&args(&["failover", "--bytes", "1201"])), Err("bytes outside 1-1200"));
    assert_eq!(failover_args(&args(&["failover", "--duration", "31"])), Err("duration outside 1-30"));
    assert_eq!(failover_args(&args(&["failover", "--udp-port", "70000"])), Err("invalid UDP port"));
    assert_eq!(failover_args(&args(&["failover", "--tcp-port", "x"])), Err("invalid TCP port"));
    assert_eq!(
        failover_args(&args(&["failover", "--tcp-port", "40101"])),
        Err("ports outside 40080-40100")
    );
    // the size is checked before the duration is bounded
    assert_eq!(
        failover_args(&args(&["failover", "--bytes", "0", "--duration", "x"])),
        Err("invalid duration")
    );
}

#[test]
fn failover_client_switches_depend_on_each_other() {
    assert_eq!(
        failover_client_flags(&args(&["failover"]), 1),
        Ok(FailoverClientFlags {
            automatic_health_failover: false,
            migration_back: false,
            restore_udp_replies_after_tcp: false,
            cold_health_failover: false,
            first_data_delay_ms: 0,
        })
    );
    let back = args(&["failover", "--migration-back", "--automatic-health-failover"]);
    assert_eq!(
        failover_client_flags(&back, 2),
        Err("--migration-back requires --automatic-health-failover and count >= 3")
    );
    assert!(failover_client_flags(&back, 3).unwrap().migration_back);
    assert_eq!(
        failover_client_flags(&args(&["failover", "--cold-health-failover"]), 1),
        Err("--cold-health-failover requires --automatic-health-failover")
    );
    assert_eq!(
        failover_client_flags(&args(&["failover", "--test-first-data-delay-ms", "2001"]), 1),
        Err("first data delay outside 0-2000 ms")
    );
}

#[test]
fn failover_server_seams_are_bounded() {
    assert_eq!(
        failover_server_seams(&args(&["failover", "--cease-udp-replies-after", "2"]), 3),
        Ok(FailoverServerSeams {
            migration_back: false,
            restore_udp_replies_after_tcp: false,
            tcp_delivery_delay_ms: 0,
            cease_udp_replies_after: Some(2),
        })
    );
    assert_eq!(
        failover_server_seams(&args(&["failover", "--cease-udp-replies-after", "3"]), 3),
        Err("UDP reply cessation point outside 1..count")
    );
    assert_eq!(
        failover_server_seams(&args(&["failover", "--cease-udp-replies-after", "x"]), 3),
        Err("invalid UDP reply cessation point")
    );
    assert_eq!(
        failover_server_seams(&args(&["failover", "--test-tcp-delivery-delay-ms", "1001"]), 3),
        Err("TCP delivery delay outside 0-1000 ms")
    );
}

#[test]
fn endpoint_rebind_needs_two_exchanges() {
    assert_eq!(
        endpoint_rebind_args(&args(&["endpoint-rebind-server", "--count", "2"]), true),
        Ok(EndpointRebindArgs { bytes: 16, duration_secs: 10, udp_port: 40081 })
    );
    assert_eq!(
        endpoint_rebind_args(&args(&["endpoint-rebind-server"]), true),
        Err("endpoint rebind requires count=2, bytes=1-1200, duration=1-30")
    );
    assert_eq!(
        endpoint_rebind_args(&args(&["x", "--count", "2", "--udp-port", "9"]), true),
        Err("port outside 40080-40100")
    );
    assert_eq!(
        endpoint_rebind_args(&args(&["x", "--count", "2", "--udp-port", "9"]), false),
        Ok(EndpointRebindArgs { bytes: 16, duration_secs: 10, udp_port: 9 })
    );
}
