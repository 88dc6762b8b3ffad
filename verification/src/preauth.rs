//! Pre-authentication pieces that need no admission controller: the
//! per-source key that admission accounts by, the deadline arithmetic and
//! the state of a bounded framed response write, and how the staged frame
//! reader's stages are charged.
use vstd::prelude::*;
use crate::error::ErrorKind;
use crate::framed::{be_bytes, frame_bytes, FrameError, FrameRead, FrameStage};
use crate::net::{IpAddress, SocketAddress};

verus! {

/// The carrier over which a peer reached the listener.
#[derive(Debug, Clone, Copy, PartialEq, Eq, Structural)]
pub enum CarrierKind {
    Tcp,
    Udp,
}

/// The low `n` bytes of `v`, most significant first.
pub open spec fn be_digits(v: nat, n: nat) -> Seq<u8>
    decreases n,
{
    if n == 0 {
        Seq::empty()
    } else {
        be_digits(v / 256, (n - 1) as nat).push((v % 256) as u8)
    }
}

/// The key under which admission accounts for a peer: the carrier, the
/// address family, the address octets and the port.
pub open spec fn source_key_of(carrier: CarrierKind, peer: SocketAddress) -> Seq<u8> {
    seq![if carrier == CarrierKind::Tcp {
        1u8
    } else {
        2u8
    }] + match peer.ip {
        IpAddress::V4(a) => seq![4u8] + be_digits(a as nat, 4),
        IpAddress::V6(a) => seq![6u8] + be_digits(a as nat, 16),
    } + be_digits(peer.port as nat, 2)
}

fn push_be(out: &mut Vec<u8>, v: u128, n: usize)
    ensures
        final(out)@ == old(out)@ + be_digits(v as nat, n as nat),
    decreases n,
{
    if n > 0 {
        push_be(out, v / 256, n - 1);
        out.push((v % 256) as u8);
        assert(final(out)@ =~= old(out)@ + be_digits(v as nat, n as nat));
    } else {
        assert(final(out)@ =~= old(out)@ + be_digits(v as nat, n as nat));
    }
}

proof fn lemma_be_digits_len(v: nat, n: nat)
    ensures
        be_digits(v, n).len() == n,
    decreases n,
{
    if n > 0 {
        lemma_be_digits_len(v / 256, (n - 1) as nat);
    }
}

pub fn source_key(carrier: CarrierKind, peer: SocketAddress) -> (key: Vec<u8>)
    ensures
        key@ == source_key_of(carrier, peer),
{
    let mut key: Vec<u8> = Vec::new();
    key.push(match carrier {
        CarrierKind::Tcp => 1,
        CarrierKind::Udp => 2,
    });
    match peer.ip {
        IpAddress::V4(a) => {
            key.push(4);
            push_be(&mut key, a as u128, 4);
        },
        IpAddress::V6(a) => {
            key.push(6);
            push_be(&mut key, a, 16);
        },
    }
    push_be(&mut key, peer.port as u128, 2);
    assert(key@ =~= source_key_of(carrier, peer));
    key
}

/// 256 to the power `n`.
pub open spec fn pow256(n: nat) -> nat
    decreases n,
{
    if n == 0 {
        1
    } else {
        256 * pow256((n - 1) as nat)
    }
}

proof fn lemma_be_digits_injective(v1: nat, v2: nat, n: nat)
    requires
        v1 < pow256(n),
        v2 < pow256(n),
        be_digits(v1, n) == be_digits(v2, n),
    ensures
        v1 == v2,
    decreases n,
{
    if n > 0 {
        let m = (n - 1) as nat;
        let a = be_digits(v1 / 256, m);
        let b = be_digits(v2 / 256, m);
        lemma_be_digits_len(v1 / 256, m);
        lemma_be_digits_len(v2 / 256, m);
        assert(a =~= be_digits(v1, n).drop_last());
        assert(b =~= be_digits(v2, n).drop_last());
        assert(be_digits(v1, n).last() == be_digits(v2, n).last());
        assert(be_digits(v1, n).last() == (v1 % 256) as u8);
        assert(be_digits(v2, n).last() == (v2 % 256) as u8);
        assert(v1 / 256 < pow256(m)) by (nonlinear_arith)
            requires
                v1 < 256 * pow256(m),
        ;
        assert(v2 / 256 < pow256(m)) by (nonlinear_arith)
            requires
                v2 < 256 * pow256(m),
        ;
        lemma_be_digits_injective(v1 / 256, v2 / 256, m);
        assert(((v1 % 256) as u8) as nat == v1 % 256);
        assert(((v2 % 256) as u8) as nat == v2 % 256);
        assert(v1 == v2) by (nonlinear_arith)
            requires
                v1 / 256 == v2 / 256,
                v1 % 256 == v2 % 256,
        ;
    }
}

/// Distinct sources never share a key: the carrier, the address family, the
/// address and the port can all be read back from the key.
pub proof fn law_source_key_injective(
    c1: CarrierKind,
    p1: SocketAddress,
    c2: CarrierKind,
    p2: SocketAddress,
)
    requires
        source_key_of(c1, p1) == source_key_of(c2, p2),
    ensures
        c1 == c2,
        p1 == p2,
{
    let k1 = source_key_of(c1, p1);
    let k2 = source_key_of(c2, p2);
    assert(k1[0] == (if c1 == CarrierKind::Tcp {
        1u8
    } else {
        2u8
    }));
    assert(k2[0] == (if c2 == CarrierKind::Tcp {
        1u8
    } else {
        2u8
    }));
    assert(pow256(2) == 65536 && pow256(4) == 4294967296 && pow256(16)
        == 0x1_0000_0000_0000_0000_0000_0000_0000_0000) by {
        reveal_with_fuel(pow256, 17);
    }
    lemma_be_digits_len(p1.port as nat, 2);
    lemma_be_digits_len(p2.port as nat, 2);
    match (p1.ip, p2.ip) {
        (IpAddress::V4(a), IpAddress::V4(b)) => {
            lemma_be_digits_len(a as nat, 4);
            lemma_be_digits_len(b as nat, 4);
            assert(k1.subrange(2, 6) =~= be_digits(a as nat, 4));
            assert(k2.subrange(2, 6) =~= be_digits(b as nat, 4));
            lemma_be_digits_injective(a as nat, b as nat, 4);
            assert(k1.subrange(6, 8) =~= be_digits(p1.port as nat, 2));
            assert(k2.subrange(6, 8) =~= be_digits(p2.port as nat, 2));
            lemma_be_digits_injective(p1.port as nat, p2.port as nat, 2);
        },
        (IpAddress::V6(a), IpAddress::V6(b)) => {
            lemma_be_digits_len(a as nat, 16);
            lemma_be_digits_len(b as nat, 16);
            assert(k1.subrange(2, 18) =~= be_digits(a as nat, 16));
            assert(k2.subrange(2, 18) =~= be_digits(b as nat, 16));
            lemma_be_digits_injective(a as nat, b as nat, 16);
            assert(k1.subrange(18, 20) =~= be_digits(p1.port as nat, 2));
            assert(k2.subrange(18, 20) =~= be_digits(p2.port as nat, 2));
            lemma_be_digits_injective(p1.port as nat, p2.port as nat, 2);
        },
        (IpAddress::V4(a), IpAddress::V6(b)) => {
            assert(k1[1] == 4u8);
            assert(k2[1] == 6u8);
        },
        (IpAddress::V6(a), IpAddress::V4(b)) => {
            assert(k1[1] == 6u8);
            assert(k2[1] == 4u8);
        },
    }
}


/// A failure of a bounded response write.
#[derive(Debug, Clone, Copy, PartialEq, Eq, Structural)]
pub enum WriteError {
    /// The response deadline has passed.
    DeadlineElapsed,
    /// The sink accepted no byte.
    Stalled,
    /// The sink failed.
    Io(ErrorKind),
}

impl WriteError {
    pub open spec fn spec_kind(self) -> ErrorKind {
        match self {
            WriteError::DeadlineElapsed => ErrorKind::TimedOut,
            WriteError::Stalled => ErrorKind::WriteZero,
            WriteError::Io(k) => k,
        }
    }

    pub fn kind(&self) -> (k: ErrorKind)
        ensures
            k == self.spec_kind(),
    {
        match self {
            WriteError::DeadlineElapsed => ErrorKind::TimedOut,
            WriteError::Stalled => ErrorKind::WriteZero,
            WriteError::Io(k) => *k,
        }
    }
}

/// The time left before the response deadline, in milliseconds; none is
/// left at or after the deadline.
pub fn remaining_budget(now_ms: u64, deadline_ms: u64) -> (r: Result<u64, WriteError>)
    ensures
        now_ms < deadline_ms ==> r == Ok::<u64, WriteError>((deadline_ms - now_ms) as u64),
        now_ms >= deadline_ms ==> r == Err::<u64, WriteError>(WriteError::DeadlineElapsed),
{
    if now_ms >= deadline_ms {
        return Err(WriteError::DeadlineElapsed);
    }
    Ok(deadline_ms - now_ms)
}

/// What one write to the sink did: accepted some bytes, or failed.
#[derive(Debug, Clone, Copy, PartialEq, Eq, Structural)]
pub enum WriteOutcome {
    Written(usize),
    Failed(ErrorKind),
}

/// The part of a frame being written.
#[derive(Debug, Clone, Copy, PartialEq, Eq, Structural)]
pub enum FramePart {
    Header,
    Payload,
}

/// What the response writer asks of its driver next.
#[derive(Debug, Clone, Copy, PartialEq, Eq, Structural)]
pub enum WriteStep {
    /// Write the bytes of `part` from `offset` on, within `budget_ms`.
    Write { part: FramePart, offset: usize, budget_ms: u64 },
    /// Flush the sink within `budget_ms`; the frame is then written.
    Flush { budget_ms: u64 },
}

/// A length-prefixed response frame being written under one absolute
/// deadline: the 4-byte big-endian length, then the payload, then a flush.
pub struct FrameWriter {
    header: Vec<u8>,
    payload: Vec<u8>,
    header_sent: usize,
    payload_sent: usize,
    deadline_ms: u64,
}

impl FrameWriter {
    #[verifier::type_invariant]
    spec fn well_formed(self) -> bool {
        &&& self.header@.len() == 4
        &&& self.header_sent <= 4
        &&& self.payload_sent <= self.payload@.len()
        &&& self.payload_sent > 0 ==> self.header_sent == 4
    }

    pub closed spec fn header_bytes(&self) -> Seq<u8> {
        self.header@
    }

    pub closed spec fn payload_bytes(&self) -> Seq<u8> {
        self.payload@
    }

    pub closed spec fn deadline(&self) -> u64 {
        self.deadline_ms
    }

    /// The bytes the sink has accepted so far.
    pub closed spec fn sent(&self) -> Seq<u8> {
        self.header@.take(self.header_sent as int) + self.payload@.take(self.payload_sent as int)
    }

    /// Whether every header and payload byte has been accepted.
    pub closed spec fn all_sent(&self) -> bool {
        self.header_sent == 4 && self.payload_sent == self.payload@.len()
    }

    /// How many bytes of the part now being written remain.
    pub closed spec fn remaining_in_part(&self) -> int {
        if self.header_sent < 4 {
            4 - self.header_sent
        } else {
            self.payload@.len() - self.payload_sent
        }
    }

    pub fn new(payload: Vec<u8>, frame_len: u32, deadline_ms: u64) -> (w: Self)
        ensures
            w.header_bytes() == be_bytes(frame_len as nat),
            w.payload_bytes() == payload@,
            w.deadline() == deadline_ms,
            w.sent() == Seq::<u8>::empty(),
    {
        let mut header: Vec<u8> = Vec::new();
        header.push((frame_len / 16777216) as u8);
        header.push(((frame_len / 65536) % 256) as u8);
        header.push(((frame_len / 256) % 256) as u8);
        header.push((frame_len % 256) as u8);
        let w = FrameWriter { header, payload, header_sent: 0, payload_sent: 0, deadline_ms };
        assert(w.header@ =~= be_bytes(frame_len as nat));
        assert(w.sent() =~= Seq::<u8>::empty());
        w
    }

    pub fn header(&self) -> (b: &[u8])
        ensures
            b@ == self.header_bytes(),
    {
        self.header.as_slice()
    }

    pub fn payload(&self) -> (b: &[u8])
        ensures
            b@ == self.payload_bytes(),
    {
        self.payload.as_slice()
    }

    /// The next step at time `now_ms`: every write and the final flush get
    /// the time left before the one deadline, and nothing is attempted once it
    /// has passed.
    pub fn next_step(&self, now_ms: u64) -> (r: Result<WriteStep, WriteError>)
        ensures
            now_ms >= self.deadline() ==> r == Err::<WriteStep, WriteError>(
                WriteError::DeadlineElapsed,
            ),
            now_ms < self.deadline() ==> r is Ok,
            r matches Ok(step) ==> match step {
                WriteStep::Write { part, offset, budget_ms } => budget_ms == self.deadline()
                    - now_ms && !self.all_sent() && offset + self.remaining_in_part() == (
                    if part == FramePart::Header {
                        4
                    } else {
                        self.payload_bytes().len()
                    }) && (part == FramePart::Header) == (self.sent().len() < 4) && offset == (
                    if part == FramePart::Header {
                        self.sent().len() as int
                    } else {
                        self.sent().len() - 4
                    }),
                WriteStep::Flush { budget_ms } => budget_ms == self.deadline() - now_ms
                    && self.all_sent(),
            },
    {
        proof {
            use_type_invariant(self);
        }
        let budget_ms = remaining_budget(now_ms, self.deadline_ms)?;
        if self.header_sent < 4 {
            Ok(WriteStep::Write { part: FramePart::Header, offset: self.header_sent, budget_ms })
        } else if self.payload_sent < self.payload.len() {
            Ok(WriteStep::Write { part: FramePart::Payload, offset: self.payload_sent, budget_ms })
        } else {
            Ok(WriteStep::Flush { budget_ms })
        }
    }

    /// Records what a write did: accepted bytes advance through the header
    /// and then the payload, an interrupted write is retried, and a write that
    /// accepts nothing or fails ends the response.
    pub fn on_write(&mut self, outcome: WriteOutcome) -> (r: Result<(), WriteError>)
        requires
            !old(self).all_sent(),
            outcome matches WriteOutcome::Written(n) ==> n <= old(self).remaining_in_part(),
        ensures
            final(self).header_bytes() == old(self).header_bytes(),
            final(self).payload_bytes() == old(self).payload_bytes(),
            final(self).deadline() == old(self).deadline(),
            match outcome {
                WriteOutcome::Written(n) => if n == 0 {
                    r == Err::<(), WriteError>(WriteError::Stalled) && final(self).sent() == old(
                        self,
                    ).sent()
                } else {
                    r is Ok && final(self).sent() == (old(self).header_bytes() + old(
                        self,
                    ).payload_bytes()).take(old(self).sent().len() + n)
                },
                WriteOutcome::Failed(k) => final(self).sent() == old(self).sent() && if k
                    == ErrorKind::Interrupted {
                    r is Ok
                } else {
                    r == Err::<(), WriteError>(WriteError::Io(k))
                },
            },
    {
        proof {
            use_type_invariant(&*self);
        }
        match outcome {
            WriteOutcome::Written(n) => {
                if n == 0 {
                    return Err(WriteError::Stalled);
                }
                let ghost whole = self.header@ + self.payload@;
                let _len = self.payload.len();
                if self.header_sent < 4 {
                    self.header_sent = self.header_sent + n;
                } else {
                    self.payload_sent = self.payload_sent + n;
                }
                assert(self.sent() =~= whole.take(old(self).sent().len() + n));
                Ok(())
            },
            WriteOutcome::Failed(k) => {
                if k == ErrorKind::Interrupted {
                    Ok(())
                } else {
                    Err(WriteError::Io(k))
                }
            },
        }
    }

    /// Whether every byte of the frame has been accepted.
    pub fn is_sent(&self) -> (b: bool)
        ensures
            b == self.all_sent(),
    {
        self.header_sent == 4 && self.payload_sent == self.payload.len()
    }
}

/// A response writer that has had every byte accepted has emitted exactly
/// the frame of its payload when the declared length is the payload's
/// length, so the frame reader reads that payload back.
pub proof fn law_written_frame_is_the_payload_frame(w: FrameWriter, frame_len: u32)
    requires
        w.all_sent(),
        w.header_bytes() == be_bytes(frame_len as nat),
        w.payload_bytes().len() == frame_len,
    ensures
        w.sent() == frame_bytes(w.payload_bytes()),
{
    assert(w.header@.take(4) =~= w.header@);
    assert(w.payload@.take(w.payload@.len() as int) =~= w.payload@);
}

/// How a stage of the staged frame reader is charged to the admission budget.
#[derive(Debug, Clone, Copy, PartialEq, Eq, Structural)]
pub enum StageCharge {
    /// Open an input record of `bytes` bytes and `work` work units.
    Begin { bytes: usize, work: usize },
    /// Extend the open record by `bytes` bytes and `work` work units.
    Extend { bytes: usize, work: usize },
    /// Close the open record.
    Complete,
}

/// The charge for a stage, given the work units allowed for the header and
/// for the whole frame: the header is charged its allowance plus any work it
/// reports above the fixed header work, the body the smaller of the rest of
/// the frame's allowance and the work it reports. No charge exists when the
/// header's work overflows.
pub fn stage_charge(stage: FrameStage, header_work: usize, body_work: usize) -> (r: Option<
    StageCharge,
>)
    ensures
        match stage {
            FrameStage::Header { bytes, work } => {
                let extra = if work >= 64 {
                    work - 64
                } else {
                    0
                };
                if header_work + extra > usize::MAX {
                    r is None
                } else {
                    r == Some(StageCharge::Begin { bytes, work: (header_work + extra) as usize })
                }
            },
            FrameStage::Body { bytes, work } => {
                let rest = if body_work >= header_work {
                    body_work - header_work
                } else {
                    0
                };
                r == Some(StageCharge::Extend { bytes, work: (if rest < work {
                    rest
                } else {
                    work as int
                }) as usize })
            },
            FrameStage::Complete => r == Some(StageCharge::Complete),
        },
{
    match stage {
        FrameStage::Header { bytes, work } => {
            let extra = work.saturating_sub(64);
            match header_work.checked_add(extra) {
                Some(w) => Some(StageCharge::Begin { bytes, work: w }),
                None => None,
            }
        },
        FrameStage::Body { bytes, work } => {
            let rest = body_work.saturating_sub(header_work);
            Some(StageCharge::Extend { bytes, work: if rest < work { rest } else { work } })
        },
        FrameStage::Complete => Some(StageCharge::Complete),
    }
}

/// The payload of a staged frame read, or why there is none: the deadline
/// passing is a timeout, and a source that ends (cleanly or mid-frame) is an
/// unexpected end of input.
pub fn staged_frame_result(result: Result<FrameRead, FrameError>) -> (r: Result<
    Vec<u8>,
    FrameError,
>)
    ensures
        match result {
            Ok(FrameRead::Complete(f)) => r == Ok::<Vec<u8>, FrameError>(f),
            Ok(FrameRead::Deadline) => r == Err::<Vec<u8>, FrameError>(
                FrameError::Io(ErrorKind::TimedOut),
            ),
            Ok(_) => r == Err::<Vec<u8>, FrameError>(FrameError::Io(ErrorKind::UnexpectedEof)),
            Err(e) => r == Err::<Vec<u8>, FrameError>(e),
        },
{
    match result {
        Ok(FrameRead::Complete(frame)) => Ok(frame),
        Ok(FrameRead::Deadline) => Err(FrameError::Io(ErrorKind::TimedOut)),
        Ok(FrameRead::CleanEof) => Err(FrameError::Io(ErrorKind::UnexpectedEof)),
        Ok(FrameRead::Truncated) => Err(FrameError::Io(ErrorKind::UnexpectedEof)),
        Err(error) => Err(error),
    }
}

/// A pre-authentication charge that both the connection's own budget and
/// the process-wide admission controller must accept, the connection first.
#[derive(Debug, Clone, Copy, PartialEq, Eq, Structural)]
pub enum AdmissionCharge {
    /// Open an input record for a frame header.
    BeginRecord,
    /// Extend the open input record by a frame body.
    ExtendRecord,
    /// Close the open input record.
    CompleteRecord,
    /// Input read outside a framed record.
    Input,
    /// A response about to be sent.
    Response,
}

/// Which of the two ledgers refused a charge.
#[derive(Debug, Clone, Copy, PartialEq, Eq, Structural)]
pub enum Refusal {
    /// The connection's own budget.
    Connection,
    /// The process-wide controller, after the connection accepted.
    Process,
}

/// What the listener does about a refused charge.
#[derive(Debug, Clone, Copy, PartialEq, Eq, Structural)]
pub enum Remedy {
    /// Terminalize the connection's pre-authentication state.
    RejectState,
    /// Give the connection's budget back the input it was just charged.
    RollbackInput,
    /// Give the connection's budget back the response it was just charged.
    RollbackResponse,
}

/// The remedy for a refused charge: a refusal by the connection's own
/// budget always terminalizes the state, as does a process refusal of any
/// step of a framed input record; a process refusal of plain input or of a
/// response only undoes the connection's charge and leaves the state open.
pub fn remedy(charge: AdmissionCharge, refusal: Refusal) -> (r: Remedy)
    ensures
        refusal == Refusal::Connection ==> r == Remedy::RejectState,
        refusal == Refusal::Process ==> r == (match charge {
            AdmissionCharge::Input => Remedy::RollbackInput,
            AdmissionCharge::Response => Remedy::RollbackResponse,
            _ => Remedy::RejectState,
        }),
{
    match (refusal, charge) {
        (Refusal::Connection, _) => Remedy::RejectState,
        (Refusal::Process, AdmissionCharge::Input) => Remedy::RollbackInput,
        (Refusal::Process, AdmissionCharge::Response) => Remedy::RollbackResponse,
        (Refusal::Process, _) => Remedy::RejectState,
    }
}

} // verus!
