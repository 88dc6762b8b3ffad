use neko_cli::lifecycle::{Lifecycle, ReadinessPrerequisite, State};

const PREREQUISITES: [ReadinessPrerequisite; 5] = [
    ReadinessPrerequisite::ConfigurationAccepted,
    ReadinessPrerequisite::IdentityInitialized,
    ReadinessPrerequisite::TrustPolicyInitialized,
    ReadinessPrerequisite::SocketBound,
    ReadinessPrerequisite::IoConfigured,
];

#[test]
fn every_named_readiness_prerequisite_is_required() {
    for missing in PREREQUISITES {
        let mut lifecycle = Lifecycle::new();
        for prerequisite in PREREQUISITES {
            if prerequisite != missing {
                lifecycle.satisfy(prerequisite);
            }
        }
        assert_eq!(lifecycle.finalize_readiness(), Err(()));
        assert_eq!(lifecycle.state(), State::Failed);
        assert!(!lifecycle.readiness());
    }
}

#[test]
fn duplicate_prerequisite_is_idempotent() {
    let mut lifecycle = Lifecycle::new();
    for prerequisite in PREREQUISITES {
        lifecycle.satisfy(prerequisite);
        lifecycle.satisfy(prerequisite);
    }
    assert_eq!(lifecycle.finalize_readiness(), Ok(()));
    assert!(lifecycle.readiness());
    lifecycle.drain();
    assert_eq!(lifecycle.state(), State::Draining);
    lifecycle.stopped();
    assert_eq!(lifecycle.state(), State::Stopped);
}

#[test]
fn satisfying_in_reverse_order_also_reaches_ready() {
    let mut lifecycle = Lifecycle::new();
    assert_eq!(lifecycle.state(), State::Starting);
    assert!(!lifecycle.readiness());
    for prerequisite in PREREQUISITES.iter().rev() {
        lifecycle.satisfy(*prerequisite);
    }
    assert!(!lifecycle.readiness());
    assert_eq!(lifecycle.finalize_readiness(), Ok(()));
    assert_eq!(lifecycle.state(), State::Ready);
    assert!(lifecycle.readiness());
}

#[test]
fn drain_only_leaves_ready() {
    let mut lifecycle = Lifecycle::new();
    lifecycle.drain();
    assert_eq!(lifecycle.state(), State::Starting);
    lifecycle.failed();
    lifecycle.drain();
    assert_eq!(lifecycle.state(), State::Failed);
    lifecycle.stopped();
    assert_eq!(lifecycle.state(), State::Stopped);
}

#[test]
fn state_names_are_upper_case() {
    assert_eq!(State::Starting.as_str(), "STARTING");
    assert_eq!(State::Ready.as_str(), "READY");
    assert_eq!(State::Draining.as_str(), "DRAINING");
    assert_eq!(State::Stopped.as_str(), "STOPPED");
    assert_eq!(State::Failed.as_str(), "FAILED");
}

#[test]
fn prerequisite_bits_are_distinct() {
    let bits: Vec<u8> = PREREQUISITES.iter().map(|p| p.bit()).collect();
    assert_eq!(bits, vec![1, 2, 4, 8, 16]);
}
