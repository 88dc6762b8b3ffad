use neko_cli::periodic::{config, percentile, value, PeriodicConfig};

fn args(values: &[&str]) -> Vec<String> {
    values.iter().map(|s| s.to_string()).collect()
}

#[test]
fn bounds_fail_closed() {
    assert!(config(&args(&["periodic-client", "--duration", "0"])).is_err());
    assert!(config(&args(&["periodic-client", "--duration", "601"])).is_err());
    assert!(config(&args(&["periodic-client", "--interval-ms", "99"])).is_err());
    assert!(config(&args(&["periodic-client", "--count", "601"])).is_err());
    assert!(config(&args(&["periodic-client", "--bytes", "1200", "--count", "600"])).is_ok());
}

#[test]
fn percentile_is_nearest_rank() {
    assert_eq!(percentile(&[1, 2, 3, 100], 50, 100), 2);
    assert_eq!(percentile(&[1, 2, 3, 100], 95, 100), 100);
    assert_eq!(percentile(&[], 95, 100), 0);
}

#[test]
fn percentile_edges() {
    assert_eq!(percentile(&[5], 0, 100), 5);
    assert_eq!(percentile(&[1, 2, 3, 4], 25, 100), 1);
    assert_eq!(percentile(&[1, 2, 3, 4], 26, 100), 2);
    assert_eq!(percentile(&[1, 2, 3, 4], 100, 100), 4);
    assert_eq!(percentile(&[1, 2, 3, 4], 200, 100), 4);
}

#[test]
fn periodic_defaults_and_messages() {
    assert_eq!(
        config(&args(&["periodic-server"])),
        Ok(PeriodicConfig {
            port: 40080,
            bytes: 32,
            count: 1,
            duration_secs: 10,
            interval_ms: 1000,
            setup_timeout_ms: 5000,
            ack_timeout_ms: 1000,
        })
    );
    assert_eq!(config(&args(&["p", "--port", "x"])), Err("invalid numeric argument"));
    assert_eq!(config(&args(&["p", "--port", "40079"])), Err("port outside 40080-40100"));
    assert_eq!(config(&args(&["p", "--bytes", "0"])), Err("bytes outside 1-1200"));
    assert_eq!(config(&args(&["p", "--count", "0"])), Err("count outside 1-600"));
    assert_eq!(config(&args(&["p", "--interval-ms", "5001"])), Err("interval-ms outside 100-5000"));
    assert_eq!(
        config(&args(&["p", "--setup-timeout-ms", "10001"])),
        Err("setup-timeout-ms outside 1-10000")
    );
    assert_eq!(
        config(&args(&["p", "--ack-timeout-ms", "0"])),
        Err("ack-timeout-ms outside 1-10000")
    );
    assert_eq!(config(&args(&["p", "--bytes", "1200", "--count", "874"])), Err("count outside 1-600"));
    assert_eq!(value(&args(&["p", "--k", "v"]), "--k", "d"), "v");
    assert_eq!(value(&args(&["p"]), "--k", "d"), "d");
}
