use neko_cli::limits::{runtime_limits, SessionLimits};
use neko_cli::multistream::limits as multistream_limits;
use neko_cli::periodic::{limits as periodic_limits, PeriodicConfig};

#[test]
fn single_stream_exchange_limits() {
    assert_eq!(
        runtime_limits(32, 4),
        SessionLimits {
            max_streams: 1,
            max_queue_records: 6,
            max_queue_bytes: 160,
            max_total_bytes: 128,
            max_record_bytes: 32,
            max_stream_window: None,
            max_session_window: None,
        }
    );
}

#[test]
fn multistream_limits_hold_every_record() {
    assert_eq!(
        multistream_limits(2, 3, 32),
        SessionLimits {
            max_streams: 2,
            max_queue_records: 7,
            max_queue_bytes: 1048576,
            max_total_bytes: 192,
            max_record_bytes: 32,
            max_stream_window: Some(96),
            max_session_window: Some(1048576),
        }
    );
}

#[test]
fn periodic_limits_double_the_run() {
    let cfg = PeriodicConfig {
        port: 40080,
        bytes: 100,
        count: 10,
        duration_secs: 10,
        interval_ms: 1000,
        setup_timeout_ms: 5000,
        ack_timeout_ms: 1000,
    };
    assert_eq!(
        periodic_limits(cfg),
        SessionLimits {
            max_streams: 1,
            max_queue_records: 12,
            max_queue_bytes: 1100,
            max_total_bytes: 2000,
            max_record_bytes: 100,
            max_stream_window: Some(1000),
            max_session_window: Some(1000),
        }
    );
}
