use neko_cli::deadline::{stream_timeout, udp_poll_failure_ends_wait, udp_wait_step, UdpWaitStep};
use neko_cli::error::ErrorKind;

#[test]
fn stream_timeout_is_time_left_or_phase_limit() {
    assert_eq!(stream_timeout(1_000, 4_000, None), Ok(3_000));
    assert_eq!(stream_timeout(1_000, 4_000, Some(500)), Ok(500));
    assert_eq!(stream_timeout(1_000, 4_000, Some(5_000)), Ok(3_000));
    assert_eq!(stream_timeout(3_999, 4_000, Some(500)), Ok(1));
}

#[test]
fn stream_timeout_fails_once_the_deadline_has_come() {
    assert_eq!(stream_timeout(4_000, 4_000, None), Err(ErrorKind::TimedOut));
    assert_eq!(stream_timeout(9_000, 4_000, Some(1)), Err(ErrorKind::TimedOut));
}

#[test]
fn udp_wait_honours_shutdown_then_deadline() {
    assert_eq!(udp_wait_step(true, 0, 10), UdpWaitStep::Shutdown);
    assert_eq!(udp_wait_step(true, 20, 10), UdpWaitStep::Shutdown);
    assert_eq!(udp_wait_step(false, 10, 10), UdpWaitStep::Deadline);
    assert_eq!(udp_wait_step(false, 9, 10), UdpWaitStep::Receive);
}

#[test]
fn udp_wait_continues_only_after_poll_timeouts() {
    assert!(!udp_poll_failure_ends_wait(ErrorKind::WouldBlock));
    assert!(!udp_poll_failure_ends_wait(ErrorKind::TimedOut));
    assert!(udp_poll_failure_ends_wait(ErrorKind::Interrupted));
    assert!(udp_poll_failure_ends_wait(ErrorKind::Other));
}
