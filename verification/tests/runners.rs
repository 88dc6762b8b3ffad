use neko_cli::cli::CliError;
use neko_cli::runners::{
    health_observe_args, lab_reliable_udp_args, scheduler_args, workload_args, FairnessTally,
    HealthObserveArgs, LabReliableUdpArgs,
    SchedulerArgs, WorkloadArgs,
};

fn args(values: &[&str]) -> Vec<String> {
    values.iter().map(|s| s.to_string()).collect()
}

#[test]
fn health_observe_reads_every_required_option() {
    let a = args(&[
        "health-observe", "--path", "7", "--rtt-us", "1200", "--loss-per-mille", "25",
        "--pto", "3", "--count", "2",
    ]);
    assert_eq!(
        health_observe_args(&a),
        Ok(HealthObserveArgs { path: 7, rtt_us: 1200, loss_per_mille: 25, pto: 3, count: 2 })
    );
}

#[test]
fn health_observe_names_the_first_missing_option() {
    let a = args(&["health-observe", "--rtt-us", "1200"]);
    assert_eq!(health_observe_args(&a), Err(CliError::Missing("--path")));
    let a = args(&["health-observe", "--path", "1", "--rtt-us", "2", "--loss-per-mille", "3"]);
    assert_eq!(health_observe_args(&a), Err(CliError::Missing("--pto")));
}

#[test]
fn health_observe_refuses_unreadable_and_out_of_range_values() {
    let a = args(&["health-observe", "--path", "x", "--rtt-us", "1"]);
    assert_eq!(health_observe_args(&a), Err(CliError::Invalid("invalid path")));
    let a = args(&[
        "health-observe", "--path", "1", "--rtt-us", "1", "--loss-per-mille", "70000",
        "--pto", "0",
    ]);
    assert_eq!(health_observe_args(&a), Err(CliError::Invalid("invalid loss-per-mille")));
    let a = args(&[
        "health-observe", "--path", "1", "--rtt-us", "1", "--loss-per-mille", "1001",
        "--pto", "0",
    ]);
    assert_eq!(
        health_observe_args(&a),
        Err(CliError::Invalid("loss-per-mille outside 0-1000"))
    );
    let a = args(&[
        "health-observe", "--path", "1", "--rtt-us", "1", "--loss-per-mille", "1000",
        "--pto", "0", "--count", "0",
    ]);
    assert!(matches!(health_observe_args(&a), Err(CliError::Invalid(_))));
}

#[test]
fn workload_defaults_and_bounds() {
    assert_eq!(
        workload_args(&args(&["workload"])),
        Ok(WorkloadArgs { duration_secs: 5, concurrency: 1, records: 100, bytes: 32 })
    );
    assert_eq!(
        workload_args(&args(&["workload", "--duration", "600", "--concurrency", "16"])),
        Ok(WorkloadArgs { duration_secs: 600, concurrency: 16, records: 100, bytes: 32 })
    );
    assert_eq!(
        workload_args(&args(&["workload", "--duration", "601"])),
        Err("duration outside 1-600")
    );
    assert_eq!(
        workload_args(&args(&["workload", "--concurrency", "0"])),
        Err("concurrency outside 1-16")
    );
    assert_eq!(
        workload_args(&args(&["workload", "--records", "10001"])),
        Err("records outside 1-10000")
    );
    assert_eq!(workload_args(&args(&["workload", "--bytes", "1201"])), Err("bytes outside 1-1200"));
    assert_eq!(workload_args(&args(&["workload", "--duration", "-1"])), Err("invalid duration"));
    assert_eq!(workload_args(&args(&["workload", "--records", "ten"])), Err("invalid records"));
}

#[test]
fn scheduler_defaults_and_frames() {
    assert_eq!(
        scheduler_args(&args(&["scheduler-fairness"])),
        Ok(SchedulerArgs { rounds: 8, bytes: 16, frames: 32 })
    );
    assert_eq!(
        scheduler_args(&args(&["scheduler-fairness", "--rounds", "64", "--bytes", "256"])),
        Ok(SchedulerArgs { rounds: 64, bytes: 256, frames: 256 })
    );
    assert_eq!(
        scheduler_args(&args(&["scheduler-fairness", "--rounds", "65"])),
        Err("rounds outside 1-64")
    );
    assert_eq!(
        scheduler_args(&args(&["scheduler-fairness", "--bytes", "0"])),
        Err("bytes outside 1-256")
    );
    assert_eq!(scheduler_args(&args(&["scheduler-fairness", "--rounds", "x"])), Err("invalid rounds"));
}

#[test]
fn fairness_tally_counts_bursts_and_forced_bulk_services() {
    let mut t = FairnessTally::new();
    for _ in 0..2 {
        for _ in 0..3 {
            t.record(false);
        }
        t.record(true);
    }
    assert_eq!(t.interactive_sent, 6);
    assert_eq!(t.bulk_sent, 2);
    assert_eq!(t.max_interactive_burst, 3);
    assert_eq!(t.current_interactive_burst, 0);
    assert_eq!(t.forced_bulk_services, 2);
    assert!(t.bound_holds(2));
    assert!(!t.bound_holds(3));
    t.record(true);
    assert_eq!(t.forced_bulk_services, 2);
    for _ in 0..4 {
        t.record(false);
    }
    assert_eq!(t.max_interactive_burst, 4);
    assert!(!t.bound_holds(2));
}

#[test]
fn lab_reliable_udp_defaults_and_bounds() {
    assert_eq!(
        lab_reliable_udp_args(&args(&["lab", "--scenario", "reliable-udp"])),
        Ok(LabReliableUdpArgs { rounds: 12, drop_every: 5, drop_ack_every: 0, settle_ms: 3000 })
    );
    assert_eq!(
        lab_reliable_udp_args(&args(&["lab", "--drop-every", "0", "--rounds", "64"])),
        Ok(LabReliableUdpArgs { rounds: 64, drop_every: 0, drop_ack_every: 0, settle_ms: 3000 })
    );
    assert_eq!(lab_reliable_udp_args(&args(&["lab", "--rounds", "3"])), Err("rounds outside 4-64"));
    assert_eq!(
        lab_reliable_udp_args(&args(&["lab", "--drop-every", "1"])),
        Err("drop-every outside 0 or 2-16")
    );
    assert_eq!(
        lab_reliable_udp_args(&args(&["lab", "--drop-ack-every", "17"])),
        Err("drop-ack-every outside 0-16")
    );
    assert_eq!(
        lab_reliable_udp_args(&args(&["lab", "--settle-ms", "0"])),
        Err("settle-ms outside 1-20000")
    );
    // every value is read before any is bounded
    assert_eq!(
        lab_reliable_udp_args(&args(&["lab", "--rounds", "1", "--settle-ms", "x"])),
        Err("invalid settle-ms")
    );
    assert_eq!(lab_reliable_udp_args(&args(&["lab", "--drop-every", "-"])), Err("invalid drop-every"));
}
