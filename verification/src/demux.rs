//! Classification of authenticated Session delivery acknowledgements on the
//! reliable UDP path: an acknowledgement that matches an outstanding record
//! confirms it, an exact repeat of one already confirmed is accepted without
//! effect, and anything else spends a small budget of malformed datagrams.
use vstd::prelude::*;

verus! {

/// The most malformed or unexpected datagrams one operation tolerates.
pub const MAX_POST_HANDSHAKE_MALFORMED: usize = 3;

/// The stream, offset and length that an acknowledgement names.
#[derive(Clone, Copy, Debug, PartialEq, Eq, Structural)]
pub struct AckRange {
    pub stream: u64,
    pub offset: u64,
    pub len: u64,
}

/// How an authenticated delivery acknowledgement was classified.
#[derive(Clone, Copy, Debug, PartialEq, Eq, Structural)]
pub enum AckClass {
    /// It confirmed the outstanding record at this position, now removed.
    Matched(usize),
    /// It repeats a range already confirmed; nothing changes.
    AcceptedEmpty,
    /// It matched nothing; the malformed budget was spent by one.
    Unexpected,
}

/// The outstanding records and confirmed ranges of one reliable operation,
/// with the malformed datagrams seen so far.
pub struct AckDemux {
    outstanding: Vec<AckRange>,
    confirmed: Vec<AckRange>,
    malformed: usize,
}

/// The first position of `r` in `s`, if any.
pub open spec fn first_index(s: Seq<AckRange>, r: AckRange) -> Option<int> {
    if exists|i: int| 0 <= i < s.len() && s[i] == r {
        Some(choose|i: int| 0 <= i < s.len() && s[i] == r && forall|j: int| 0 <= j < i ==> s[j] != r)
    } else {
        None
    }
}

proof fn lemma_push_to_set(s: Seq<AckRange>, x: AckRange)
    ensures
        s.push(x).to_set() == s.to_set().insert(x),
{
    assert forall|a: AckRange| #[trigger] s.push(x).contains(a) == (s.contains(a) || a == x) by {
        if s.contains(a) {
            let k = choose|k: int| 0 <= k < s.len() && s[k] == a;
            assert(s.push(x)[k] == a);
        }
        if a == x {
            assert(s.push(x)[s.len() as int] == x);
        }
        if s.push(x).contains(a) {
            let k = choose|k: int| 0 <= k < s.push(x).len() && s.push(x)[k] == a;
            if k < s.len() {
                assert(s[k] == a);
            }
        }
    }
    assert(s.push(x).to_set() =~= s.to_set().insert(x));
}

/// The malformed budget spent by one: the records and confirmed ranges stay,
/// and the operation fails once the third is spent, with the count at three.
pub open spec fn malformed_step(before: AckDemux, after: AckDemux, r: Result<(), &'static str>) -> bool {
    &&& after.outstanding() == before.outstanding()
    &&& after.confirmed() == before.confirmed()
    &&& if before.malformed() + 1 < MAX_POST_HANDSHAKE_MALFORMED {
        r is Ok && after.malformed() == before.malformed() + 1
    } else {
        r matches Err(e) && e@ == "UDP delivery acknowledgement malformed bound exceeded"@
            && after.malformed() == MAX_POST_HANDSHAKE_MALFORMED
    }
}

/// One operation tolerates two malformed datagrams and fails on the third:
/// from a fresh count, the first two malformed steps succeed, the third one
/// fails, and none of them touches the records or the confirmed ranges.
pub proof fn law_third_malformed_datagram_fails(
    d0: AckDemux,
    d1: AckDemux,
    d2: AckDemux,
    d3: AckDemux,
    r1: Result<(), &'static str>,
    r2: Result<(), &'static str>,
    r3: Result<(), &'static str>,
)
    requires
        d0.malformed() == 0,
        malformed_step(d0, d1, r1),
        malformed_step(d1, d2, r2),
        malformed_step(d2, d3, r3),
    ensures
        r1 is Ok,
        r2 is Ok,
        r3 is Err,
        d3.malformed() == 3,
        d3.outstanding() == d0.outstanding(),
        d3.confirmed() == d0.confirmed(),
{
}

/// An authenticated delivery acknowledgement of `range` classified: the first
/// outstanding record with exactly that range is confirmed and removed; an
/// exact repeat of a confirmed range changes nothing; any other range spends
/// the malformed budget.
pub open spec fn ack_step(
    before: AckDemux,
    after: AckDemux,
    range: AckRange,
    r: Result<AckClass, &'static str>,
) -> bool {
    match first_index(before.outstanding(), range) {
        Some(i) => r == Ok::<AckClass, &'static str>(AckClass::Matched(i as usize))
            && after.outstanding() == before.outstanding().remove(i) && after.confirmed()
            == before.confirmed().insert(range) && after.malformed() == before.malformed(),
        None => if before.confirmed().contains(range) {
            r == Ok::<AckClass, &'static str>(AckClass::AcceptedEmpty) && after.outstanding()
                == before.outstanding() && after.confirmed() == before.confirmed()
                && after.malformed() == before.malformed()
        } else {
            malformed_step(
                before,
                after,
                match r {
                    Ok(_) => Ok(()),
                    Err(e) => Err(e),
                },
            ) && (r is Ok ==> r == Ok::<AckClass, &'static str>(AckClass::Unexpected))
        },
    }
}

/// A Session delivery acknowledgement: the session it belongs to and the
/// range it acknowledges.
#[derive(Clone, Copy, Debug, PartialEq, Eq, Structural)]
pub struct SessionAck {
    pub session: u64,
    pub range: AckRange,
}

/// A datagram that was opened with the session's keys, as far as the
/// receive owner reads it.
#[derive(Clone, Copy, Debug, PartialEq, Eq, Structural)]
pub enum Opened {
    /// It did not authenticate.
    Unauthenticated,
    /// It authenticated: the Session delivery acknowledgement it decodes to,
    /// if any, and whether it decodes as a canonical carrier acknowledgement
    /// while a reliable runtime is attached.
    Authenticated { delivery_ack: Option<SessionAck>, carrier_ack: bool },
}

/// Whether `opened` authenticated and decodes as a carrier acknowledgement.
pub open spec fn carrier_ack(opened: Opened) -> bool {
    match opened {
        Opened::Authenticated { carrier_ack, .. } => carrier_ack,
        Opened::Unauthenticated => false,
    }
}

/// What the receive owner does with an opened datagram.
#[derive(Clone, Copy, Debug, PartialEq, Eq, Structural)]
pub enum Disposition {
    /// A delivery acknowledgement of this session, classified.
    Delivery(AckClass),
    /// A carrier acknowledgement, for the reliable runtime to apply.
    CarrierAck,
    /// Anything else; the malformed budget was spent by one.
    Malformed,
}

/// The range of a delivery acknowledgement of `session` in `opened`, if any.
pub open spec fn session_ack(opened: Opened, session: u64) -> Option<AckRange> {
    match opened {
        Opened::Authenticated { delivery_ack: Some(ack), .. } => if ack.session == session {
            Some(ack.range)
        } else {
            None
        },
        _ => None,
    }
}

/// What a datagram received while awaiting an acknowledgement is, before
/// any decryption.
#[derive(Clone, Copy, Debug, PartialEq, Eq, Structural)]
pub enum DatagramClass {
    /// It came from another address than the peer's.
    UnexpectedPeer,
    /// It repeats the negotiation response already received.
    DuplicateNegotiationResponse,
    /// It repeats the handshake response already received.
    DuplicateNoiseResponse,
    /// It is to be opened as a sealed record.
    Sealed,
}

fn bytes_eq(a: &[u8], b: &[u8]) -> (r: bool)
    ensures
        r == (a@ == b@),
{
    if a.len() != b.len() {
        return false;
    }
    let mut i: usize = 0;
    while i < a.len()
        invariant
            a@.len() == b@.len(),
            i <= a@.len(),
            forall|k: int| 0 <= k < i ==> a@[k] == b@[k],
        decreases a@.len() - i,
    {
        if a[i] != b[i] {
            return false;
        }
        i = i + 1;
    }
    assert(a@ =~= b@);
    true
}

/// Classifies a received datagram: one from another address is foreign;
/// an exact repeat of the negotiation or of the handshake response is a
/// harmless duplicate; anything else is opened as a sealed record.
pub fn classify_datagram(
    from_peer: bool,
    datagram: &[u8],
    negotiation_response: &[u8],
    noise_response: &[u8],
) -> (c: DatagramClass)
    ensures
        !from_peer ==> c == DatagramClass::UnexpectedPeer,
        from_peer && datagram@ == negotiation_response@ ==> c
            == DatagramClass::DuplicateNegotiationResponse,
        from_peer && datagram@ != negotiation_response@ && datagram@ == noise_response@ ==> c
            == DatagramClass::DuplicateNoiseResponse,
        from_peer && datagram@ != negotiation_response@ && datagram@ != noise_response@ ==> c
            == DatagramClass::Sealed,
{
    if !from_peer {
        DatagramClass::UnexpectedPeer
    } else if bytes_eq(datagram, negotiation_response) {
        DatagramClass::DuplicateNegotiationResponse
    } else if bytes_eq(datagram, noise_response) {
        DatagramClass::DuplicateNoiseResponse
    } else {
        DatagramClass::Sealed
    }
}

impl AckDemux {
    #[verifier::type_invariant]
    spec fn well_formed(self) -> bool {
        &&& self.malformed <= MAX_POST_HANDSHAKE_MALFORMED
        &&& forall|i: int, j: int|
            0 <= i < j < self.confirmed@.len() ==> self.confirmed@[i] != self.confirmed@[j]
    }

    pub closed spec fn outstanding(&self) -> Seq<AckRange> {
        self.outstanding@
    }

    /// The ranges confirmed so far, each once.
    pub closed spec fn confirmed(&self) -> Set<AckRange> {
        self.confirmed@.to_set()
    }

    pub closed spec fn malformed(&self) -> nat {
        self.malformed as nat
    }

    pub fn new(outstanding: Vec<AckRange>) -> (d: Self)
        ensures
            d.outstanding() == outstanding@,
            d.confirmed() == Set::<AckRange>::empty(),
            d.malformed() == 0,
    {
        let d = AckDemux { outstanding, confirmed: Vec::new(), malformed: 0 };
        assert(d.confirmed@.to_set() =~= Set::<AckRange>::empty());
        d
    }

    /// The malformed datagrams counted so far.
    pub fn malformed_count(&self) -> (n: usize)
        ensures
            n == self.malformed(),
    {
        self.malformed
    }

    /// Adds a record to await.
    pub fn await_record(&mut self, range: AckRange)
        ensures
            final(self).outstanding() == old(self).outstanding().push(range),
            final(self).confirmed() == old(self).confirmed(),
            final(self).malformed() == old(self).malformed(),
    {
        proof {
            use_type_invariant(&*self);
        }
        let mut cur = AckDemux { outstanding: Vec::new(), confirmed: Vec::new(), malformed: 0 };
        std::mem::swap(self, &mut cur);
        let AckDemux { mut outstanding, confirmed, malformed } = cur;
        outstanding.push(range);
        *self = AckDemux { outstanding, confirmed, malformed };
    }

    fn position(v: &Vec<AckRange>, r: AckRange) -> (p: Option<usize>)
        ensures
            match p {
                Some(i) => i < v@.len() && v@[i as int] == r && forall|j: int|
                    0 <= j < i ==> v@[j] != r,
                None => forall|j: int| 0 <= j < v@.len() ==> v@[j] != r,
            },
    {
        let mut i: usize = 0;
        while i < v.len()
            invariant
                i <= v@.len(),
                forall|j: int| 0 <= j < i ==> v@[j] != r,
            decreases v@.len() - i,
        {
            if v[i] == r {
                return Some(i);
            }
            i = i + 1;
        }
        None
    }

    /// Spends the malformed budget by one; fails once three are spent, the
    /// count then standing at three.
    pub fn on_malformed(&mut self) -> (r: Result<(), &'static str>)
        ensures
            malformed_step(*old(self), *final(self), r),
    {
        proof {
            use_type_invariant(&*self);
        }
        if self.malformed + 1 >= MAX_POST_HANDSHAKE_MALFORMED {
            self.malformed = MAX_POST_HANDSHAKE_MALFORMED;
            return Err("UDP delivery acknowledgement malformed bound exceeded");
        }
        self.malformed = self.malformed + 1;
        Ok(())
    }

    /// Classifies an authenticated delivery acknowledgement of `range`: the
    /// first outstanding record with exactly that range is confirmed and
    /// removed; an exact repeat of a confirmed range changes nothing; any
    /// other range spends the malformed budget.
    pub fn on_ack(&mut self, range: AckRange) -> (r: Result<AckClass, &'static str>)
        ensures
            ack_step(*old(self), *final(self), range, r),
    {
        proof {
            use_type_invariant(&*self);
        }
        match Self::position(&self.outstanding, range) {
            Some(pos) => {
                proof {
                    assert(first_index(old(self).outstanding(), range) == Some(pos as int)) by {
                        let i = choose|i: int|
                            0 <= i < self.outstanding@.len() && self.outstanding@[i] == range
                                && forall|j: int| 0 <= j < i ==> self.outstanding@[j] != range;
                        assert(i == pos as int) by {
                            if i < pos {
                                assert(self.outstanding@[i] != range);
                            } else if i > pos {
                                assert(self.outstanding@[pos as int] != range);
                            }
                        }
                    }
                }
                let mut cur = AckDemux {
                    outstanding: Vec::new(),
                    confirmed: Vec::new(),
                    malformed: 0,
                };
                std::mem::swap(self, &mut cur);
                let AckDemux { mut outstanding, mut confirmed, malformed } = cur;
                outstanding.remove(pos);
                let ghost before = confirmed@;
                if Self::position(&confirmed, range).is_none() {
                    confirmed.push(range);
                    proof {
                        assert forall|i: int, j: int|
                            0 <= i < j < confirmed@.len() implies confirmed@[i] != confirmed@[j] by {
                            if j == confirmed@.len() - 1 {
                                assert(before[i] != range);
                            } else {
                                assert(before[i] != before[j]);
                            }
                        }
                        lemma_push_to_set(before, range);
                    }
                } else {
                    proof {
                        assert(before.to_set().contains(range));
                        assert(before.to_set().insert(range) =~= before.to_set());
                    }
                }
                *self = AckDemux { outstanding, confirmed, malformed };
                Ok(AckClass::Matched(pos))
            },
            None => {
                proof {
                    assert(first_index(old(self).outstanding(), range) is None);
                }
                if Self::position(&self.confirmed, range).is_some() {
                    proof {
                        let k = choose|k: int| 0 <= k < self.confirmed@.len() && self.confirmed@[k] == range;
                        assert(self.confirmed@.to_set().contains(range));
                    }
                    return Ok(AckClass::AcceptedEmpty);
                }
                proof {
                    assert(!self.confirmed@.to_set().contains(range));
                }
                match self.on_malformed() {
                    Ok(()) => Ok(AckClass::Unexpected),
                    Err(e) => Err(e),
                }
            },
        }
    }

    /// Handles an opened datagram: a delivery acknowledgement of this
    /// session is classified; otherwise a carrier acknowledgement is handed
    /// to the reliable runtime; anything else, unauthenticated datagrams
    /// included, spends the malformed budget.
    pub fn on_opened(&mut self, opened: Opened, session: u64) -> (r: Result<
        Disposition,
        &'static str,
    >)
        ensures
            session_ack(opened, session) matches Some(range) ==> ack_step(
                *old(self),
                *final(self),
                range,
                match r {
                    Ok(Disposition::Delivery(c)) => Ok(c),
                    Ok(_) => Err(""),
                    Err(e) => Err(e),
                },
            ) && !(r matches Ok(Disposition::CarrierAck)) && !(r matches Ok(Disposition::Malformed)),
            session_ack(opened, session) is None && carrier_ack(opened) ==> r == Ok::<Disposition, &'static str>(Disposition::CarrierAck) && *final(self)
                == *old(self),
            session_ack(opened, session) is None && !carrier_ack(opened) ==> malformed_step(
                *old(self),
                *final(self),
                match r {
                    Ok(_) => Ok(()),
                    Err(e) => Err(e),
                },
            ) && (r is Ok ==> r == Ok::<Disposition, &'static str>(Disposition::Malformed)),
    {
        match opened {
            Opened::Authenticated { delivery_ack: Some(ack), carrier_ack } => {
                if ack.session == session {
                    match self.on_ack(ack.range) {
                        Ok(c) => Ok(Disposition::Delivery(c)),
                        Err(e) => Err(e),
                    }
                } else if carrier_ack {
                    Ok(Disposition::CarrierAck)
                } else {
                    match self.on_malformed() {
                        Ok(()) => Ok(Disposition::Malformed),
                        Err(e) => Err(e),
                    }
                }
            },
            Opened::Authenticated { delivery_ack: None, carrier_ack: true } => Ok(
                Disposition::CarrierAck,
            ),
            _ => match self.on_malformed() {
                Ok(()) => Ok(Disposition::Malformed),
                Err(e) => Err(e),
            },
        }
    }
}

/// An exact repeat of an acknowledgement is harmless: once an
/// acknowledgement has confirmed the only outstanding record with its range,
/// that range is no longer outstanding and is confirmed, so `on_ack` accepts
/// a repeat of it as empty and changes nothing.
pub proof fn law_repeated_ack_is_accepted_empty(
    outstanding: Seq<AckRange>,
    confirmed: Set<AckRange>,
    range: AckRange,
    i: int,
)
    requires
        first_index(outstanding, range) == Some(i),
        forall|j: int| 0 <= j < outstanding.len() && j != i ==> outstanding[j] != range,
    ensures
        first_index(outstanding.remove(i), range) is None,
        confirmed.insert(range).contains(range),
{
    let rest = outstanding.remove(i);
    assert forall|j: int| 0 <= j < rest.len() implies rest[j] != range by {
        if j < i {
            assert(rest[j] == outstanding[j]);
        } else {
            assert(rest[j] == outstanding[j + 1]);
        }
    }
}

} // verus!
