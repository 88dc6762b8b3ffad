use neko_cli::demux::{
    classify_datagram, AckClass, AckDemux, AckRange, DatagramClass, Disposition, Opened, SessionAck,
    MAX_POST_HANDSHAKE_MALFORMED,
};

fn range(stream: u64, offset: u64, len: u64) -> AckRange {
    AckRange { stream, offset, len }
}

#[test]
fn matching_ack_confirms_the_first_outstanding_record() {
    let mut d = AckDemux::new(vec![range(1, 0, 10), range(1, 10, 10), range(1, 0, 10)]);
    assert_eq!(d.on_ack(range(1, 10, 10)), Ok(AckClass::Matched(1)));
    assert_eq!(d.on_ack(range(1, 0, 10)), Ok(AckClass::Matched(0)));
    assert_eq!(d.on_ack(range(1, 0, 10)), Ok(AckClass::Matched(0)));
}

#[test]
fn exact_repeat_of_a_confirmed_ack_changes_nothing() {
    let mut d = AckDemux::new(vec![range(3, 0, 5)]);
    assert_eq!(d.on_ack(range(3, 0, 5)), Ok(AckClass::Matched(0)));
    for _ in 0..10 {
        assert_eq!(d.on_ack(range(3, 0, 5)), Ok(AckClass::AcceptedEmpty));
    }
    d.await_record(range(3, 5, 5));
    assert_eq!(d.on_ack(range(3, 5, 5)), Ok(AckClass::Matched(0)));
}

#[test]
fn unexpected_acks_spend_the_malformed_budget() {
    assert_eq!(MAX_POST_HANDSHAKE_MALFORMED, 3);
    let mut d = AckDemux::new(vec![range(1, 0, 4)]);
    assert_eq!(d.on_ack(range(1, 0, 5)), Ok(AckClass::Unexpected));
    assert_eq!(d.on_ack(range(2, 0, 4)), Ok(AckClass::Unexpected));
    assert_eq!(
        d.on_ack(range(1, 1, 4)),
        Err("UDP delivery acknowledgement malformed bound exceeded")
    );
}

#[test]
fn malformed_datagrams_share_the_budget() {
    let mut d = AckDemux::new(vec![]);
    assert_eq!(d.on_malformed(), Ok(()));
    assert_eq!(d.on_ack(range(0, 0, 1)), Ok(AckClass::Unexpected));
    assert_eq!(
        d.on_malformed(),
        Err("UDP delivery acknowledgement malformed bound exceeded")
    );
}

#[test]
fn datagrams_are_classified_before_opening() {
    let negotiation = b"selection".to_vec();
    let noise = b"noise".to_vec();
    assert_eq!(
        classify_datagram(false, b"selection", &negotiation, &noise),
        DatagramClass::UnexpectedPeer
    );
    assert_eq!(
        classify_datagram(true, b"selection", &negotiation, &noise),
        DatagramClass::DuplicateNegotiationResponse
    );
    assert_eq!(
        classify_datagram(true, b"noise", &negotiation, &noise),
        DatagramClass::DuplicateNoiseResponse
    );
    assert_eq!(classify_datagram(true, b"noisy", &negotiation, &noise), DatagramClass::Sealed);
    assert_eq!(classify_datagram(true, b"", &negotiation, &noise), DatagramClass::Sealed);
}

#[test]
fn opened_datagrams_are_routed_by_domain() {
    let ack = |session: u64, r: AckRange| Opened::Authenticated {
        delivery_ack: Some(SessionAck { session, range: r }),
        carrier_ack: false,
    };
    let mut d = AckDemux::new(vec![range(1, 0, 8)]);
    assert_eq!(d.on_opened(ack(7001, range(1, 0, 8)), 7001), Ok(Disposition::Delivery(AckClass::Matched(0))));
    assert_eq!(
        d.on_opened(ack(7001, range(1, 0, 8)), 7001),
        Ok(Disposition::Delivery(AckClass::AcceptedEmpty))
    );
    let carrier = Opened::Authenticated { delivery_ack: None, carrier_ack: true };
    assert_eq!(d.on_opened(carrier, 7001), Ok(Disposition::CarrierAck));
    // a delivery acknowledgement of another session is no delivery here
    assert_eq!(d.on_opened(ack(7002, range(1, 0, 8)), 7001), Ok(Disposition::Malformed));
    assert_eq!(d.on_opened(Opened::Unauthenticated, 7001), Ok(Disposition::Malformed));
    assert_eq!(
        d.on_opened(Opened::Unauthenticated, 7001),
        Err("UDP delivery acknowledgement malformed bound exceeded")
    );
}

#[test]
fn delivery_ack_requires_authenticated_exact_range_and_rejects_replay() {
    let expected = range(1, 32, 16);
    let ack = |session: u64, r: AckRange| Opened::Authenticated {
        delivery_ack: Some(SessionAck { session, range: r }),
        carrier_ack: false,
    };
    let mut d = AckDemux::new(vec![expected]);
    assert_eq!(d.on_opened(ack(7001, expected), 7001), Ok(Disposition::Delivery(AckClass::Matched(0))));
    // another session, another stream, another offset or another length match nothing
    let mut d = AckDemux::new(vec![expected]);
    assert_eq!(d.on_opened(ack(7002, range(1, 32, 16)), 7001), Ok(Disposition::Malformed));
    for wrong in [range(2, 32, 16), range(1, 31, 16), range(1, 32, 15)] {
        let mut d = AckDemux::new(vec![expected]);
        assert_eq!(
            d.on_opened(ack(7001, wrong), 7001),
            Ok(Disposition::Delivery(AckClass::Unexpected))
        );
        assert_eq!(d.on_ack(expected), Ok(AckClass::Matched(0)));
    }
    // what does not authenticate is no acknowledgement
    let mut d = AckDemux::new(vec![expected]);
    assert_eq!(d.on_opened(Opened::Unauthenticated, 7001), Ok(Disposition::Malformed));
    assert_eq!(d.on_ack(expected), Ok(AckClass::Matched(0)));
}

#[test]
fn unexpected_logical_acks_reach_the_bound_and_retire_nothing() {
    let record = range(1, 0, 16);
    let mut d = AckDemux::new(vec![record]);
    let unexpected = range(1, 4096, 16);
    assert_eq!(d.on_ack(unexpected), Ok(AckClass::Unexpected));
    assert_eq!(d.on_ack(unexpected), Ok(AckClass::Unexpected));
    assert_eq!(d.on_ack(unexpected), Err("UDP delivery acknowledgement malformed bound exceeded"));
    assert_eq!(d.malformed_count(), MAX_POST_HANDSHAKE_MALFORMED);
    assert_eq!(d.on_ack(record), Ok(AckClass::Matched(0)));
}
