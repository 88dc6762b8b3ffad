use neko_cli::health_window::{HealthDatagram, HealthObservationWindow, HealthWindowError, WindowStep};

const SECOND: u64 = 1_000_000;

#[test]
fn junk_budget_exhaustion_is_distinct_and_does_not_advance_or_accelerate_health() {
    let start = 5;
    for junk in [
        HealthDatagram::WrongPeer,
        HealthDatagram::MalformedOrUnadmitted,
        HealthDatagram::StaleOrNonmatchingAuthenticated,
    ] {
        let mut window = HealthObservationWindow::new(start, SECOND, 1_024);
        for i in 0..1_024 {
            assert_eq!(window.observe(junk, start + i), Ok(WindowStep::Ignored));
        }
        assert_eq!(
            window.observe(junk, start + 999_000),
            Err(HealthWindowError::AdmissionBudgetExhausted { ignored: 1_024 })
        );
        assert_eq!(window.deadline(), start + SECOND);
        assert_eq!(window.started_at(), start);
    }
}

#[test]
fn exact_progress_at_budget_boundary_remains_detectable_and_resets_window() {
    let start = 0;
    let mut window = HealthObservationWindow::new(start, SECOND, 2);
    assert_eq!(window.observe(HealthDatagram::WrongPeer, start), Ok(WindowStep::Ignored));
    assert_eq!(window.observe(HealthDatagram::MalformedOrUnadmitted, start), Ok(WindowStep::Ignored));
    let progress = start + 10_000;
    assert_eq!(
        window.observe(HealthDatagram::PermittedProgress, progress),
        Ok(WindowStep::Progress)
    );
    assert_eq!(window.deadline(), progress + SECOND);
    // The budget is fresh again.
    assert_eq!(window.observe(HealthDatagram::WrongPeer, progress), Ok(WindowStep::Ignored));
}

#[test]
fn an_ended_window_is_reported_before_any_datagram() {
    let mut window = HealthObservationWindow::new(0, SECOND, 8);
    assert_eq!(window.check_expired(SECOND - 1), Err(HealthWindowError::NotExpired));
    assert_eq!(window.check_expired(SECOND), Ok(()));
    assert_eq!(window.observe(HealthDatagram::PermittedProgress, SECOND), Ok(WindowStep::Expired));
    assert_eq!(window.deadline(), SECOND);
    window.restart(SECOND);
    assert_eq!(window.deadline(), 2 * SECOND);
    assert_eq!(window.started_at(), SECOND);
}

/// Ends the current window at `now`: it must have ended, and the next one
/// starts there.
fn expire(window: &mut HealthObservationWindow, now: u64) {
    assert_eq!(window.check_expired(now), Ok(()));
    assert_eq!(window.observe(HealthDatagram::WrongPeer, now), Ok(WindowStep::Expired));
    window.restart(now);
}

#[test]
fn one_and_two_windows_do_not_fail_third_only_creates_failed_evidence() {
    let start = 0;
    let mut window = HealthObservationWindow::new(start, SECOND, 8);
    assert_eq!(window.check_expired(start + SECOND - 1), Err(HealthWindowError::NotExpired));
    expire(&mut window, start + SECOND);
    assert_eq!(window.deadline(), start + 2 * SECOND);
    expire(&mut window, start + 2 * SECOND);
    assert_eq!(window.deadline(), start + 3 * SECOND);
    expire(&mut window, start + 3 * SECOND);
    assert_eq!(window.deadline(), start + 4 * SECOND);
}

#[test]
fn exact_permitted_progress_resets_failure_counter_and_window() {
    let start = 0;
    let mut window = HealthObservationWindow::new(start, SECOND, 8);
    expire(&mut window, start + SECOND);
    let progress_at = start + SECOND + 500_000;
    assert_eq!(
        window.observe(HealthDatagram::PermittedProgress, progress_at),
        Ok(WindowStep::Progress)
    );
    assert_eq!(window.deadline(), progress_at + SECOND);
    assert_eq!(window.check_expired(progress_at + SECOND - 1), Err(HealthWindowError::NotExpired));
    expire(&mut window, progress_at + SECOND);
}
