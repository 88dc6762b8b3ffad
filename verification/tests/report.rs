use neko_cli::lifecycle::{Lifecycle, ReadinessPrerequisite};
use neko_cli::report::{diagnostic_line, lifecycle_line, signal_shutdown, HandshakeDiagnostics};

#[test]
fn diagnostic_line_is_one_json_object() {
    assert_eq!(
        diagnostic_line("exp-0001", "client", "connected", 3, ",\"bytes\":32"),
        "{\"experiment_id\":\"exp-0001\",\"role\":\"client\",\"event\":\"connected\",\"seq\":3,\"bytes\":32 }"
    );
    assert_eq!(
        diagnostic_line("exp-0001", "server", "start", 0, ""),
        "{\"experiment_id\":\"exp-0001\",\"role\":\"server\",\"event\":\"start\",\"seq\":0 }"
    );
}

#[test]
fn lifecycle_line_reports_state_and_readiness() {
    let mut l = Lifecycle::new();
    assert_eq!(lifecycle_line(&l), "lifecycle_state=STARTING readiness=false");
    l.satisfy(ReadinessPrerequisite::ConfigurationAccepted);
    l.satisfy(ReadinessPrerequisite::IdentityInitialized);
    l.satisfy(ReadinessPrerequisite::TrustPolicyInitialized);
    l.satisfy(ReadinessPrerequisite::SocketBound);
    l.satisfy(ReadinessPrerequisite::IoConfigured);
    assert_eq!(l.finalize_readiness(), Ok(()));
    assert_eq!(lifecycle_line(&l), "lifecycle_state=READY readiness=true");
    l.drain();
    assert_eq!(lifecycle_line(&l), "lifecycle_state=DRAINING readiness=false");
}

#[test]
fn handshake_diagnostics_track_the_last_stage() {
    let mut d = HandshakeDiagnostics::new("client");
    assert_eq!(
        d.timeout(),
        "{\"ok\":false,\"subsystem\":\"udp_handshake\",\"role\":\"client\",\"stage\":\"timeout\",\"last_success_stage\":\"none\"}"
    );
    assert_eq!(
        d.event("hello_sent"),
        "{\"ok\":true,\"subsystem\":\"udp_handshake\",\"role\":\"client\",\"stage\":\"hello_sent\",\"last_success_stage\":\"hello_sent\"}"
    );
    assert_eq!(d.last_success, "hello_sent");
    assert_eq!(
        d.timeout(),
        "{\"ok\":false,\"subsystem\":\"udp_handshake\",\"role\":\"client\",\"stage\":\"timeout\",\"last_success_stage\":\"hello_sent\"}"
    );
}

#[test]
fn signal_shutdown_drains_then_stops() {
    let mut l = Lifecycle::new();
    l.satisfy(ReadinessPrerequisite::ConfigurationAccepted);
    l.satisfy(ReadinessPrerequisite::IdentityInitialized);
    l.satisfy(ReadinessPrerequisite::TrustPolicyInitialized);
    l.satisfy(ReadinessPrerequisite::SocketBound);
    l.satisfy(ReadinessPrerequisite::IoConfigured);
    assert_eq!(l.finalize_readiness(), Ok(()));
    let (first, second) = signal_shutdown(&mut l);
    assert_eq!(first, "lifecycle_state=DRAINING readiness=false");
    assert_eq!(second, "lifecycle_state=STOPPED readiness=false");
    let mut fresh = Lifecycle::new();
    let (first, second) = signal_shutdown(&mut fresh);
    assert_eq!(first, "lifecycle_state=STARTING readiness=false");
    assert_eq!(second, "lifecycle_state=STOPPED readiness=false");
}
