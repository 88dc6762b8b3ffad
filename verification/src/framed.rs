//! A reader of length-prefixed frames: a 4-byte big-endian length followed by
//! that many payload bytes, bounded by a maximum frame length.
//!
//! The reader is a state machine. A driver checks the deadline with
//! [`FramedReader::deadline_outcome`], reads at most
//! [`FramedReader::read_limit`] bytes from its source, and hands the result
//! to [`FramedReader::on_read`] (or, when the header and body must be charged
//! to an admission budget as they arrive, to [`FramedReader::on_read_staged`]
//! and [`FramedReader::resume_staged`]).
use vstd::prelude::*;
use crate::error::ErrorKind;

verus! {

/// The outcome of reading one frame.
#[derive(Debug, PartialEq, Eq)]
pub enum FrameRead {
    /// A whole frame arrived; its payload.
    Complete(Vec<u8>),
    /// The deadline passed with no frame begun.
    Deadline,
    /// The source ended with no frame begun.
    CleanEof,
    /// The deadline passed or the source ended in the middle of a frame.
    Truncated,
}

/// A stage of one logical input record, reported by the staged reader.
#[derive(Debug, Clone, Copy, PartialEq, Eq, Structural)]
pub enum FrameStage {
    Header { bytes: usize, work: usize },
    Body { bytes: usize, work: usize },
    Complete,
}

/// What one read from the byte source produced: some bytes (none at the end
/// of the source), or a failure of the given kind.
#[derive(Debug)]
pub enum ReadEvent {
    Bytes(Vec<u8>),
    Failed(ErrorKind),
}

/// A failure of the frame reader.
#[derive(Debug, Clone, Copy, PartialEq, Eq, Structural)]
pub enum FrameError {
    /// The header declared a frame longer than the maximum.
    TooLarge,
    /// The frame limit cannot change while a frame is partly read.
    PartialFrame,
    /// The byte source failed.
    Io(ErrorKind),
}

impl FrameError {
    pub open spec fn spec_kind(self) -> ErrorKind {
        match self {
            FrameError::TooLarge => ErrorKind::InvalidData,
            FrameError::PartialFrame => ErrorKind::InvalidInput,
            FrameError::Io(kind) => kind,
        }
    }

    pub fn kind(&self) -> (k: ErrorKind)
        ensures
            k == self.spec_kind(),
    {
        match self {
            FrameError::TooLarge => ErrorKind::InvalidData,
            FrameError::PartialFrame => ErrorKind::InvalidInput,
            FrameError::Io(kind) => *kind,
        }
    }
}

/// The stage that the staged reader has reported and waits to resume after.
#[derive(Debug, Clone, Copy, PartialEq, Eq, Structural)]
pub enum Awaiting {
    Nothing,
    Header,
    Body,
    Complete,
}

/// What a step of the staged reader asks of its driver.
#[derive(Debug, PartialEq, Eq)]
pub enum StagedStep {
    /// Read more bytes.
    Continue,
    /// Charge this stage, then call `resume_staged` (or stop if it is refused).
    Report(FrameStage),
    /// The read is over with this outcome.
    Finished(FrameRead),
}

/// The length of the fixed frame header.
pub const HEADER_LEN: usize = 4;
/// The work units charged for a frame header.
pub const HEADER_WORK: usize = 64;
/// The work units charged for a frame body.
pub const BODY_WORK: usize = 4096;

/// The abstract state of a frame reader.
#[verifier::ext_equal]
pub struct FrameModel {
    /// Header bytes received so far (at most four).
    pub header: Seq<u8>,
    /// Payload bytes received so far.
    pub payload: Seq<u8>,
    /// The declared payload length once a header has been accepted, else zero.
    pub body_len: nat,
    /// The largest payload length accepted.
    pub max_frame_len: nat,
}

/// The value of four bytes read as a big-endian unsigned integer.
pub open spec fn declared_len(h: Seq<u8>) -> nat {
    (h[0] as nat) * 16777216 + (h[1] as nat) * 65536 + (h[2] as nat) * 256 + (h[3] as nat)
}

/// The four big-endian bytes of `n`.
pub open spec fn be_bytes(n: nat) -> Seq<u8> {
    seq![
        ((n / 16777216) % 256) as u8,
        ((n / 65536) % 256) as u8,
        ((n / 256) % 256) as u8,
        (n % 256) as u8,
    ]
}

/// The bytes of the frame that carries `payload`.
pub open spec fn frame_bytes(payload: Seq<u8>) -> Seq<u8> {
    be_bytes(payload.len()) + payload
}

/// A reader that holds no part of a frame.
pub open spec fn fresh(max_frame_len: nat) -> FrameModel {
    FrameModel { header: Seq::empty(), payload: Seq::empty(), body_len: 0, max_frame_len }
}

/// The state `m` with another maximum frame length.
pub open spec fn with_max(m: FrameModel, max_frame_len: nat) -> FrameModel {
    FrameModel { max_frame_len, ..m }
}

/// Whether part of a frame has been read.
pub open spec fn is_partial(m: FrameModel) -> bool {
    m.header.len() != 0 || m.payload.len() != 0 || m.body_len != 0
}

/// How many bytes the next read may deliver: the rest of the header, or the
/// rest of the declared body.
pub open spec fn read_limit(m: FrameModel) -> int {
    if m.header.len() < 4 {
        4 - m.header.len()
    } else {
        m.body_len - m.payload.len()
    }
}

/// The result of absorbing some bytes.
pub enum Absorbed {
    /// More bytes are needed.
    Pending,
    /// The header is now complete (staged reading stops here to report it).
    HeaderDone,
    /// A frame with this payload is complete.
    Complete(Seq<u8>),
    /// The header declared a frame longer than the maximum.
    TooLarge,
}

/// The outcome of the deadline or of the end of the source for a reader in state `m`.
pub open spec fn cut_short(m: FrameModel, at_deadline: bool) -> FrameRead {
    if is_partial(m) {
        FrameRead::Truncated
    } else if at_deadline {
        FrameRead::Deadline
    } else {
        FrameRead::CleanEof
    }
}

/// Accepting a complete header `h` in state `m`: the frame is too long, is
/// empty and complete, or has a body of the declared length to come.
pub open spec fn accept_header(m: FrameModel, h: Seq<u8>) -> (FrameModel, Absorbed) {
    let n = declared_len(h);
    if n > m.max_frame_len {
        (FrameModel { header: h, ..m }, Absorbed::TooLarge)
    } else if n == 0 {
        (fresh(m.max_frame_len), Absorbed::Complete(Seq::empty()))
    } else {
        (FrameModel { header: h, payload: Seq::empty(), body_len: n, ..m }, Absorbed::Pending)
    }
}

/// Absorbing the nonempty chunk `d` (no longer than the read limit) into the
/// state `m` of the plain reader.
pub open spec fn absorb(m: FrameModel, d: Seq<u8>) -> (FrameModel, Absorbed) {
    if m.header.len() < 4 {
        let h = m.header + d;
        if h.len() < 4 {
            (FrameModel { header: h, ..m }, Absorbed::Pending)
        } else {
            accept_header(m, h)
        }
    } else {
        let p = m.payload + d;
        if p.len() == m.body_len {
            (fresh(m.max_frame_len), Absorbed::Complete(p))
        } else {
            (FrameModel { payload: p, ..m }, Absorbed::Pending)
        }
    }
}

/// Whether the returned frame read carries exactly the payload `p`.
pub open spec fn completes_with(r: FrameRead, p: Seq<u8>) -> bool {
    match r {
        FrameRead::Complete(v) => v@ == p,
        _ => false,
    }
}

/// Whether the plain reader's result `r` agrees with the absorbed outcome `a`.
pub open spec fn plain_result(r: Result<Option<FrameRead>, FrameError>, a: Absorbed) -> bool {
    match a {
        Absorbed::Pending => r == Ok::<Option<FrameRead>, FrameError>(None),
        Absorbed::HeaderDone => false,
        Absorbed::Complete(p) => r matches Ok(Some(f)) && completes_with(f, p),
        Absorbed::TooLarge => r == Err::<Option<FrameRead>, FrameError>(FrameError::TooLarge),
    }
}

/// The staged reader's step on the nonempty chunk `d`: it reports the header
/// when it completes and the end of the body when it completes, and otherwise
/// keeps reading.
pub open spec fn absorb_staged(m: FrameModel, d: Seq<u8>) -> (FrameModel, Absorbed) {
    if m.header.len() < 4 {
        let h = m.header + d;
        if h.len() < 4 {
            (FrameModel { header: h, ..m }, Absorbed::Pending)
        } else {
            (FrameModel { header: h, ..m }, Absorbed::HeaderDone)
        }
    } else {
        let p = m.payload + d;
        (FrameModel { payload: p, ..m }, if p.len() == m.body_len {
            Absorbed::Complete(p)
        } else {
            Absorbed::Pending
        })
    }
}

/// The plain reader's step: `before` and `after` are its states around
/// handling `event`, and `r` what it returned.
pub open spec fn plain_read(
    before: FrameModel,
    after: FrameModel,
    event: ReadEvent,
    r: Result<Option<FrameRead>, FrameError>,
) -> bool {
    match event {
        ReadEvent::Failed(kind) => after == before && if kind.is_poll_timeout() {
            r == Ok::<Option<FrameRead>, FrameError>(None)
        } else {
            r == Err::<Option<FrameRead>, FrameError>(FrameError::Io(kind))
        },
        ReadEvent::Bytes(d) => if d@.len() == 0 {
            after == before && r == Ok::<Option<FrameRead>, FrameError>(
                Some(cut_short(before, false)),
            )
        } else {
            after == absorb(before, d@).0 && plain_result(r, absorb(before, d@).1)
        },
    }
}

/// Whether the staged reader's result `r` agrees with the absorbed outcome `a`.
pub open spec fn staged_result(r: Result<StagedStep, FrameError>, a: Absorbed) -> bool {
    match a {
        Absorbed::Pending => r == Ok::<StagedStep, FrameError>(StagedStep::Continue),
        Absorbed::HeaderDone => r == Ok::<StagedStep, FrameError>(
            StagedStep::Report(FrameStage::Header { bytes: 4, work: 64 }),
        ),
        Absorbed::Complete(_) => r == Ok::<StagedStep, FrameError>(
            StagedStep::Report(FrameStage::Complete),
        ),
        Absorbed::TooLarge => false,
    }
}

/// The stage the staged reader waits on after absorbing with outcome `a`.
pub open spec fn awaiting_after(a: Absorbed) -> Awaiting {
    match a {
        Absorbed::HeaderDone => Awaiting::Header,
        Absorbed::Complete(_) => Awaiting::Complete,
        _ => Awaiting::Nothing,
    }
}

/// The staged reader's step on `event`, from state `before` to `after`,
/// returning `r` and then waiting on `waits`.
pub open spec fn staged_read(
    before: FrameModel,
    after: FrameModel,
    waits: Awaiting,
    event: ReadEvent,
    r: Result<StagedStep, FrameError>,
) -> bool {
    match event {
        ReadEvent::Failed(kind) => after == before && waits == Awaiting::Nothing
            && if kind.is_poll_timeout() {
            r == Ok::<StagedStep, FrameError>(StagedStep::Continue)
        } else {
            r == Err::<StagedStep, FrameError>(FrameError::Io(kind))
        },
        ReadEvent::Bytes(d) => if d@.len() == 0 {
            after == before && waits == Awaiting::Nothing && r == Ok::<StagedStep, FrameError>(
                StagedStep::Finished(cut_short(before, false)),
            )
        } else {
            after == absorb_staged(before, d@).0 && waits == awaiting_after(
                absorb_staged(before, d@).1,
            ) && staged_result(r, absorb_staged(before, d@).1)
        },
    }
}

/// The staged reader resuming after the stage `waited` was charged, from
/// state `before` to `after`, returning `r` and then waiting on `waits`: after
/// the header it refuses an oversize frame or reports the body, after the body
/// it reports completion at once for an empty frame, and after completion it
/// hands out the payload.
pub open spec fn staged_resume(
    before: FrameModel,
    waited: Awaiting,
    after: FrameModel,
    waits: Awaiting,
    r: Result<StagedStep, FrameError>,
) -> bool {
    let n = declared_len(before.header);
    match waited {
        Awaiting::Header => after == before && if n > before.max_frame_len {
            waits == Awaiting::Nothing && r == Err::<StagedStep, FrameError>(FrameError::TooLarge)
        } else {
            waits == Awaiting::Body && r == Ok::<StagedStep, FrameError>(
                StagedStep::Report(FrameStage::Body { bytes: n as usize, work: 4096 }),
            )
        },
        Awaiting::Body => after == FrameModel { body_len: n, ..before } && if n == 0 {
            waits == Awaiting::Complete && r == Ok::<StagedStep, FrameError>(
                StagedStep::Report(FrameStage::Complete),
            )
        } else {
            waits == Awaiting::Nothing && r == Ok::<StagedStep, FrameError>(StagedStep::Continue)
        },
        Awaiting::Complete => after == fresh(before.max_frame_len) && waits == Awaiting::Nothing
            && (r matches Ok(StagedStep::Finished(f)) && completes_with(f, before.payload)),
        Awaiting::Nothing => false,
    }
}

pub struct FramedReader {
    header: Vec<u8>,
    payload: Vec<u8>,
    body_len: usize,
    max_frame_len: usize,
    awaiting: Awaiting,
}

impl View for FramedReader {
    type V = FrameModel;

    closed spec fn view(&self) -> FrameModel {
        FrameModel {
            header: self.header@,
            payload: self.payload@,
            body_len: self.body_len as nat,
            max_frame_len: self.max_frame_len as nat,
        }
    }
}

impl FramedReader {
    #[verifier::type_invariant]
    spec fn well_formed(self) -> bool {
        &&& self.header@.len() <= 4
        &&& self.payload@.len() <= self.body_len
        &&& self.body_len > 0 ==> self.header@.len() == 4
        &&& self.awaiting == Awaiting::Header ==> self.header@.len() == 4 && self.body_len == 0
            && self.payload@.len() == 0
        &&& self.awaiting == Awaiting::Body ==> self.header@.len() == 4 && self.body_len == 0
            && self.payload@.len() == 0 && declared_len(self.header@) <= self.max_frame_len
        &&& self.awaiting == Awaiting::Complete ==> self.header@.len() == 4
            && self.payload@.len() == self.body_len
    }

    /// The stage that the staged reader reported last and has not resumed after.
    pub closed spec fn awaiting(&self) -> Awaiting {
        self.awaiting
    }

    pub fn new(max_frame_len: usize) -> (r: Self)
        ensures
            r@ == fresh(max_frame_len as nat),
            r.awaiting() == Awaiting::Nothing,
    {
        FramedReader {
            header: Vec::new(),
            payload: Vec::new(),
            body_len: 0,
            max_frame_len,
            awaiting: Awaiting::Nothing,
        }
    }

    /// Whether part of a frame has been read.
    pub fn is_partial(&self) -> (b: bool)
        ensures
            b == is_partial(self@),
    {
        self.header.len() != 0 || self.payload.len() != 0 || self.body_len != 0
    }

    /// Whether no payload buffer is held: no body has been declared and no
    /// payload byte is buffered.
    pub fn payload_is_empty(&self) -> (b: bool)
        ensures
            b == (self@.body_len == 0 && self@.payload.len() == 0),
    {
        self.body_len == 0 && self.payload.len() == 0
    }

    /// How many bytes the next read may deliver.
    pub fn read_limit(&self) -> (n: usize)
        ensures
            n == read_limit(self@),
    {
        proof {
            use_type_invariant(self);
        }
        if self.header.len() < HEADER_LEN {
            HEADER_LEN - self.header.len()
        } else {
            self.body_len - self.payload.len()
        }
    }

    /// Changes the maximum frame length; refused while a frame is partly read.
    pub fn set_max_frame_len(&mut self, max_frame_len: usize) -> (r: Result<(), FrameError>)
        ensures
            (r is Err) == is_partial(old(self)@),
            is_partial(old(self)@) ==> r == Err::<(), FrameError>(FrameError::PartialFrame)
                && final(self)@ == old(self)@,
            !is_partial(old(self)@) ==> final(self)@ == with_max(old(self)@, max_frame_len as nat),
            final(self).awaiting() == old(self).awaiting(),
    {
        if self.is_partial() {
            return Err(FrameError::PartialFrame);
        }
        proof {
            use_type_invariant(&*self);
        }
        self.max_frame_len = max_frame_len;
        Ok(())
    }

    /// What the deadline means for this reader at time `now`: nothing before
    /// it, and at or after it a truncation when part of a frame has been read
    /// and otherwise a plain deadline.
    pub fn deadline_outcome(&self, now: u64, deadline: u64) -> (r: Option<FrameRead>)
        ensures
            now < deadline ==> r is None,
            now >= deadline ==> r == Some(cut_short(self@, true)),
    {
        if now >= deadline {
            Some(if self.is_partial() { FrameRead::Truncated } else { FrameRead::Deadline })
        } else {
            None
        }
    }

    /// The payload length declared by the complete header.
    fn declared(&self) -> (n: usize)
        requires
            self.header@.len() == 4,
        ensures
            n == declared_len(self.header@),
    {
        let h0 = self.header[0] as u32;
        let h1 = self.header[1] as u32;
        let h2 = self.header[2] as u32;
        let h3 = self.header[3] as u32;
        let n: u32 = h0 * 16777216 + h1 * 65536 + h2 * 256 + h3;
        n as usize
    }

    /// Hands out the completed payload and leaves no part of a frame behind.
    fn take_frame(&mut self) -> (frame: Vec<u8>)
        ensures
            frame@ == old(self)@.payload,
            final(self)@ == fresh(old(self)@.max_frame_len),
            final(self).awaiting() == Awaiting::Nothing,
    {
        let mut done = FramedReader::new(self.max_frame_len);
        std::mem::swap(self, &mut done);
        let FramedReader { payload, .. } = done;
        payload
    }

    /// Appends header bytes that do not overrun the header.
    fn append_header(&mut self, data: Vec<u8>)
        requires
            old(self)@.header.len() < 4,
            old(self)@.header.len() + data@.len() <= 4,
        ensures
            final(self)@ == (FrameModel { header: old(self)@.header + data@, ..old(self)@ }),
            final(self).awaiting() == Awaiting::Nothing,
    {
        proof {
            use_type_invariant(&*self);
        }
        let mut cur = FramedReader::new(0);
        std::mem::swap(self, &mut cur);
        let FramedReader { mut header, payload, body_len, max_frame_len, awaiting } = cur;
        let mut data = data;
        header.append(&mut data);
        *self = FramedReader { header, payload, body_len, max_frame_len, awaiting };
    }

    /// Appends payload bytes that do not overrun the declared body.
    fn append_payload(&mut self, data: Vec<u8>, waits: Awaiting)
        requires
            old(self)@.header.len() == 4,
            old(self).awaiting() == Awaiting::Nothing,
            old(self)@.payload.len() + data@.len() <= old(self)@.body_len,
            waits == Awaiting::Nothing || (waits == Awaiting::Complete && old(self)@.payload.len()
                + data@.len() == old(self)@.body_len),
        ensures
            final(self)@ == (FrameModel { payload: old(self)@.payload + data@, ..old(self)@ }),
            final(self).awaiting() == waits,
    {
        proof {
            use_type_invariant(&*self);
        }
        let mut cur = FramedReader::new(0);
        std::mem::swap(self, &mut cur);
        let FramedReader { header, mut payload, body_len, max_frame_len, awaiting } = cur;
        let mut data = data;
        payload.append(&mut data);
        *self = FramedReader { header, payload, body_len, max_frame_len, awaiting: waits };
    }

    /// Sets the declared body length after the header was accepted.
    fn begin_body(&mut self, n: usize, waits: Awaiting)
        requires
            old(self)@.header.len() == 4,
            old(self)@.body_len == 0,
            old(self)@.payload.len() == 0,
            waits == Awaiting::Nothing || (waits == Awaiting::Complete && n == 0),
        ensures
            final(self)@ == (FrameModel { body_len: n as nat, ..old(self)@ }),
            final(self).awaiting() == waits,
    {
        proof {
            use_type_invariant(&*self);
        }
        let mut cur = FramedReader::new(0);
        std::mem::swap(self, &mut cur);
        let FramedReader { header, payload, body_len, max_frame_len, awaiting } = cur;
        *self = FramedReader { header, payload, body_len: n, max_frame_len, awaiting: waits };
    }

    /// Records which stage the staged reader waits on.
    fn set_awaiting(&mut self, waits: Awaiting)
        requires
            waits == Awaiting::Nothing || (waits == Awaiting::Header && old(self)@.header.len() == 4
                && old(self)@.body_len == 0 && old(self)@.payload.len() == 0) || (waits
                == Awaiting::Body && old(self)@.header.len() == 4 && old(self)@.body_len == 0
                && old(self)@.payload.len() == 0 && declared_len(old(self)@.header) <= old(
                self,
            )@.max_frame_len),
        ensures
            final(self)@ == old(self)@,
            final(self).awaiting() == waits,
    {
        proof {
            use_type_invariant(&*self);
        }
        let mut cur = FramedReader::new(0);
        std::mem::swap(self, &mut cur);
        let FramedReader { header, payload, body_len, max_frame_len, awaiting } = cur;
        *self = FramedReader { header, payload, body_len, max_frame_len, awaiting: waits };
    }

    /// Handles one read for the plain reader: the bytes read (none at the end
    /// of the source) or the failure of the read. It returns `None` while the
    /// frame is incomplete, and the outcome once the read is over.
    pub fn on_read(&mut self, event: ReadEvent) -> (r: Result<Option<FrameRead>, FrameError>)
        requires
            event matches ReadEvent::Bytes(d) ==> d@.len() <= read_limit(old(self)@),
        ensures
            plain_read(old(self)@, final(self)@, event, r),
            final(self).awaiting() == old(self).awaiting(),
    {
        proof {
            use_type_invariant(&*self);
        }
        match event {
            ReadEvent::Failed(kind) => {
                match Self::failed_read(kind) {
                    Ok(()) => Ok(None),
                    Err(e) => Err(e),
                }
            },
            ReadEvent::Bytes(data) => {
                if data.len() == 0 {
                    return Ok(Some(if self.is_partial() {
                        FrameRead::Truncated
                    } else {
                        FrameRead::CleanEof
                    }));
                }
                if self.header.len() < HEADER_LEN {
                    self.append_header(data);
                    if self.header.len() < HEADER_LEN {
                        return Ok(None);
                    }
                    let n = self.declared();
                    if n > self.max_frame_len {
                        return Err(FrameError::TooLarge);
                    }
                    if n == 0 {
                        let frame = self.take_frame();
                        assert(frame@ =~= Seq::<u8>::empty());
                        return Ok(Some(FrameRead::Complete(frame)));
                    }
                    assert(self@.payload =~= Seq::<u8>::empty());
                    self.begin_body(n, Awaiting::Nothing);
                    Ok(None)
                } else {
                    let complete = self.payload.len() + data.len() == self.body_len;
                    self.append_payload(data, Awaiting::Nothing);
                    if complete {
                        let frame = self.take_frame();
                        Ok(Some(FrameRead::Complete(frame)))
                    } else {
                        Ok(None)
                    }
                }
            },
        }
    }

    /// Handles one read for the staged reader, which reports the header when
    /// it completes and the end of the body when it completes.
    pub fn on_read_staged(&mut self, event: ReadEvent) -> (r: Result<StagedStep, FrameError>)
        requires
            event matches ReadEvent::Bytes(d) ==> d@.len() <= read_limit(old(self)@),
        ensures
            staged_read(old(self)@, final(self)@, final(self).awaiting(), event, r),
    {
        proof {
            use_type_invariant(&*self);
        }
        match event {
            ReadEvent::Failed(kind) => {
                self.set_awaiting(Awaiting::Nothing);
                match Self::failed_read(kind) {
                    Ok(()) => Ok(StagedStep::Continue),
                    Err(e) => Err(e),
                }
            },
            ReadEvent::Bytes(data) => {
                if data.len() == 0 {
                    self.set_awaiting(Awaiting::Nothing);
                    return Ok(StagedStep::Finished(if self.is_partial() {
                        FrameRead::Truncated
                    } else {
                        FrameRead::CleanEof
                    }));
                }
                if self.header.len() < HEADER_LEN {
                    self.append_header(data);
                    if self.header.len() < HEADER_LEN {
                        return Ok(StagedStep::Continue);
                    }
                    self.set_awaiting(Awaiting::Header);
                    Ok(StagedStep::Report(FrameStage::Header { bytes: HEADER_LEN, work: HEADER_WORK }))
                } else {
                    let complete = self.payload.len() + data.len() == self.body_len;
                    if complete {
                        self.append_payload(data, Awaiting::Complete);
                        Ok(StagedStep::Report(FrameStage::Complete))
                    } else {
                        self.append_payload(data, Awaiting::Nothing);
                        Ok(StagedStep::Continue)
                    }
                }
            },
        }
    }

    /// Continues the staged reader after the stage it reported was charged.
    pub fn resume_staged(&mut self) -> (r: Result<StagedStep, FrameError>)
        requires
            old(self).awaiting() != Awaiting::Nothing,
        ensures
            staged_resume(old(self)@, old(self).awaiting(), final(self)@, final(self).awaiting(), r),
    {
        proof {
            use_type_invariant(&*self);
        }
        match self.awaiting {
            Awaiting::Header => {
                let n = self.declared();
                if n > self.max_frame_len {
                    self.set_awaiting(Awaiting::Nothing);
                    Err(FrameError::TooLarge)
                } else {
                    self.set_awaiting(Awaiting::Body);
                    Ok(StagedStep::Report(FrameStage::Body { bytes: n, work: BODY_WORK }))
                }
            },
            Awaiting::Body => {
                let n = self.declared();
                if n == 0 {
                    self.begin_body(n, Awaiting::Complete);
                    Ok(StagedStep::Report(FrameStage::Complete))
                } else {
                    self.begin_body(n, Awaiting::Nothing);
                    Ok(StagedStep::Continue)
                }
            },
            Awaiting::Complete => {
                let frame = self.take_frame();
                Ok(StagedStep::Finished(FrameRead::Complete(frame)))
            },
            Awaiting::Nothing => Ok(StagedStep::Continue),
        }
    }

    /// Classifies a failed read: a poll timeout means "try again".
    fn failed_read(kind: ErrorKind) -> (r: Result<(), FrameError>)
        ensures
            r is Ok <==> kind.is_poll_timeout(),
            r is Err ==> r == Err::<(), FrameError>(FrameError::Io(kind)),
    {
        if kind == ErrorKind::WouldBlock || kind == ErrorKind::TimedOut {
            Ok(())
        } else {
            Err(FrameError::Io(kind))
        }
    }
}


/// The state of a reader that has read the first `k` bytes of the frame that
/// carries `p`, short of its end.
pub open spec fn after_prefix(p: Seq<u8>, k: nat, max_frame_len: nat) -> FrameModel {
    if k < 4 {
        FrameModel {
            header: frame_bytes(p).take(k as int),
            payload: Seq::empty(),
            body_len: 0,
            max_frame_len,
        }
    } else {
        FrameModel {
            header: frame_bytes(p).take(4),
            payload: p.take(k - 4),
            body_len: p.len(),
            max_frame_len,
        }
    }
}

/// Reading the length back from the big-endian header gives the length.
pub proof fn lemma_declared_len_of_be_bytes(n: nat)
    requires
        n <= 0xffff_ffff,
    ensures
        be_bytes(n).len() == 4,
        declared_len(be_bytes(n)) == n,
{
    let x = n as u32;
    assert(((x / 16777216) % 256) * 16777216 + ((x / 65536) % 256) * 65536 + ((x / 256) % 256)
        * 256 + x % 256 == x) by (bit_vector);
    assert(((x / 16777216) % 256) < 256 && ((x / 65536) % 256) < 256 && ((x / 256) % 256) < 256
        && x % 256 < 256) by (bit_vector);
    assert(x as nat == n);
}

/// Framing round trip: a reader that has read the first `k` bytes of the
/// frame carrying `p` (with `p` within the limit), given the next `j` bytes
/// of that frame in one read (as many as a read may deliver), is left having
/// read `k + j` bytes of it, or hands out exactly `p` and is left holding no
/// part of a frame once the frame's last byte arrives. With the fresh reader
/// as the state after no bytes, the frame's bytes, split into reads in any
/// way, are read back as `p`.
pub proof fn law_frame_round_trip(p: Seq<u8>, max_frame_len: nat, k: nat, j: nat)
    requires
        p.len() <= max_frame_len,
        p.len() <= 0xffff_ffff,
        k < 4 + p.len(),
        0 < j <= read_limit(after_prefix(p, k, max_frame_len)),
    ensures
        after_prefix(p, 0, max_frame_len) == fresh(max_frame_len),
        k + j <= frame_bytes(p).len(),
        k + j == 4 + p.len() ==> absorb(
            after_prefix(p, k, max_frame_len),
            frame_bytes(p).subrange(k as int, (k + j) as int),
        ).0 == fresh(max_frame_len) && absorb(
            after_prefix(p, k, max_frame_len),
            frame_bytes(p).subrange(k as int, (k + j) as int),
        ).1 == Absorbed::Complete(p),
        k + j < 4 + p.len() ==> absorb(
            after_prefix(p, k, max_frame_len),
            frame_bytes(p).subrange(k as int, (k + j) as int),
        ).0 == after_prefix(p, k + j, max_frame_len) && absorb(
            after_prefix(p, k, max_frame_len),
            frame_bytes(p).subrange(k as int, (k + j) as int),
        ).1 == Absorbed::Pending,
{
    let n = p.len();
    let f = frame_bytes(p);
    lemma_declared_len_of_be_bytes(n);
    assert(f.len() == 4 + n);
    assert(after_prefix(p, 0, max_frame_len) =~= fresh(max_frame_len));
    let m = after_prefix(p, k, max_frame_len);
    let d = f.subrange(k as int, (k + j) as int);
    if k < 4 {
        assert(j <= 4 - k);
        let h = m.header + d;
        assert(h =~= f.take((k + j) as int));
        if k + j == 4 {
            assert(h =~= be_bytes(n));
            if n == 0 {
                assert(p =~= Seq::<u8>::empty());
            } else {
                assert(p.take(0) =~= Seq::<u8>::empty());
            }
        }
    } else {
        assert(j <= n - (k - 4));
        let q = m.payload + d;
        assert(q =~= p.take(k + j - 4)) by {
            assert forall|i: int| 0 <= i < q.len() implies q[i] == p[i] by {
                if i >= k - 4 {
                    assert(q[i] == d[i - (k - 4)]);
                    assert(d[i - (k - 4)] == f[i + 4]);
                }
            }
        }
        if k + j == 4 + n {
            assert(q =~= p);
        }
    }
}

/// The staged reader reads the same frames as the plain reader. Having read
/// the first `k` bytes of the frame carrying `p` (with `p` within the
/// limit) and charged every stage reported so far, it is in the same state
/// as the plain reader, and so cut short by the deadline or the end of the
/// source it gives the same outcome. Given the next `j` bytes in one read:
/// short of the header's end or the frame's end it is left having read
/// `k + j` bytes; at the header's end it reports the header, resuming
/// reports a body of the declared length, and resuming again leaves it
/// having read the header (reporting completion at once for an empty
/// frame); at the frame's end it reports completion, and resuming then hands
/// out exactly `p` and leaves it holding no part of a frame.
pub proof fn law_staged_frame_round_trip(p: Seq<u8>, max_frame_len: nat, k: nat, j: nat)
    requires
        p.len() <= max_frame_len,
        p.len() <= 0xffff_ffff,
        k < 4 + p.len(),
        0 < j <= read_limit(after_prefix(p, k, max_frame_len)),
    ensures
        is_partial(after_prefix(p, k, max_frame_len)) == (k > 0),
        ({
            let m = after_prefix(p, k, max_frame_len);
            let d = frame_bytes(p).subrange(k as int, (k + j) as int);
            let (next, absorbed) = absorb_staged(m, d);
            let header = FrameModel {
                header: be_bytes(p.len()),
                payload: Seq::empty(),
                body_len: 0,
                max_frame_len,
            };
            &&& k + j != 4 && k + j < 4 + p.len() ==> next == after_prefix(p, k + j, max_frame_len)
                && absorbed == Absorbed::Pending
            &&& k + j == 4 ==> next == header && absorbed == Absorbed::HeaderDone
                && staged_resume(
                header,
                Awaiting::Header,
                header,
                Awaiting::Body,
                Ok(StagedStep::Report(FrameStage::Body { bytes: p.len() as usize, work: 4096 })),
            ) && staged_resume(
                header,
                Awaiting::Body,
                after_prefix(p, 4, max_frame_len),
                if p.len() == 0 {
                    Awaiting::Complete
                } else {
                    Awaiting::Nothing
                },
                if p.len() == 0 {
                    Ok(StagedStep::Report(FrameStage::Complete))
                } else {
                    Ok(StagedStep::Continue)
                },
            )
            &&& k >= 4 && k + j == 4 + p.len() ==> absorbed == Absorbed::Complete(p) && next.payload
                == p
            &&& k + j == 4 && p.len() == 0 ==> after_prefix(p, 4, max_frame_len).payload == p
        }),
{
    let n = p.len();
    let f = frame_bytes(p);
    lemma_declared_len_of_be_bytes(n);
    law_frame_round_trip(p, max_frame_len, k, j);
    let m = after_prefix(p, k, max_frame_len);
    let d = f.subrange(k as int, (k + j) as int);
    assert(f.take(4) =~= be_bytes(n));
    if k > 0 && k < 4 {
        assert(m.header.len() == k);
    }
    if k >= 4 {
        assert(m.header.len() == 4);
    }
    if k < 4 {
        let h = m.header + d;
        assert(h =~= f.take((k + j) as int));
        if k + j == 4 {
            assert(h =~= be_bytes(n));
            assert(p.take(0) =~= Seq::<u8>::empty());
        }
    } else {
        let q = m.payload + d;
        assert(absorb(m, d).0 == after_prefix(p, k + j, max_frame_len) || k + j == 4 + n);
        if k + j == 4 + n {
            assert(q =~= p) by {
                assert forall|i: int| 0 <= i < q.len() implies q[i] == p[i] by {
                    if i >= k - 4 {
                        assert(q[i] == d[i - (k - 4)]);
                        assert(d[i - (k - 4)] == f[i + 4]);
                    }
                }
            }
        }
    }
    if n == 0 {
        assert(p =~= Seq::<u8>::empty());
        assert(p.take(0) =~= p);
    }
}

/// One thing that happens to a frame read: the deadline is found to have
/// passed, a read delivers bytes (none at the end of the source), or a read
/// fails.
pub enum ScriptEvent {
    Deadline,
    Read(Seq<u8>),
    Failed(ErrorKind),
}

/// How a frame read driven through a script of events ends.
pub enum ScriptOutcome {
    /// A frame with this payload arrived.
    Frame(Seq<u8>),
    /// The deadline or the end of the source cut the read short.
    Cut(FrameRead),
    /// The header declared a frame longer than the maximum.
    TooLarge,
    /// A read failed with this kind.
    Failed(ErrorKind),
    /// The script ended first.
    Unfinished,
}

/// The plain reader driven through `s` from state `m`: each event is one
/// step as `on_read` (or, for the deadline, `deadline_outcome`) takes it, and
/// the read goes on while a step neither ends it nor completes a frame.
pub open spec fn plain_run(m: FrameModel, s: Seq<ScriptEvent>) -> (FrameModel, ScriptOutcome)
    decreases s.len(),
{
    if s.len() == 0 {
        (m, ScriptOutcome::Unfinished)
    } else {
        match s[0] {
            ScriptEvent::Deadline => (m, ScriptOutcome::Cut(cut_short(m, true))),
            ScriptEvent::Failed(kind) => if kind.is_poll_timeout() {
                plain_run(m, s.drop_first())
            } else {
                (m, ScriptOutcome::Failed(kind))
            },
            ScriptEvent::Read(d) => if d.len() == 0 {
                (m, ScriptOutcome::Cut(cut_short(m, false)))
            } else {
                let (next, absorbed) = absorb(m, d);
                match absorbed {
                    Absorbed::Pending => plain_run(next, s.drop_first()),
                    Absorbed::Complete(payload) => (next, ScriptOutcome::Frame(payload)),
                    Absorbed::TooLarge => (next, ScriptOutcome::TooLarge),
                    Absorbed::HeaderDone => (next, ScriptOutcome::Unfinished),
                }
            },
        }
    }
}

/// The staged reader driven through `s` from state `m`, with every stage it
/// reports accepted: each event is one step as `on_read_staged` takes it,
/// and each reported stage is resumed at once as `resume_staged` does.
pub open spec fn staged_run(m: FrameModel, s: Seq<ScriptEvent>) -> (FrameModel, ScriptOutcome)
    decreases s.len(),
{
    if s.len() == 0 {
        (m, ScriptOutcome::Unfinished)
    } else {
        match s[0] {
            ScriptEvent::Deadline => (m, ScriptOutcome::Cut(cut_short(m, true))),
            ScriptEvent::Failed(kind) => if kind.is_poll_timeout() {
                staged_run(m, s.drop_first())
            } else {
                (m, ScriptOutcome::Failed(kind))
            },
            ScriptEvent::Read(d) => if d.len() == 0 {
                (m, ScriptOutcome::Cut(cut_short(m, false)))
            } else {
                let (next, absorbed) = absorb_staged(m, d);
                match absorbed {
                    Absorbed::Pending => staged_run(next, s.drop_first()),
                    Absorbed::HeaderDone => {
                        let n = declared_len(next.header);
                        if n > next.max_frame_len {
                            (next, ScriptOutcome::TooLarge)
                        } else if n == 0 {
                            (fresh(next.max_frame_len), ScriptOutcome::Frame(next.payload))
                        } else {
                            staged_run(FrameModel { body_len: n, ..next }, s.drop_first())
                        }
                    },
                    Absorbed::Complete(payload) => (
                        fresh(next.max_frame_len),
                        ScriptOutcome::Frame(next.payload),
                    ),
                    Absorbed::TooLarge => (next, ScriptOutcome::TooLarge),
                }
            },
        }
    }
}

/// A reader that has not finished a header holds no payload and no body
/// length (every reader state reached from a fresh reader is such).
pub open spec fn header_idle(m: FrameModel) -> bool {
    m.header.len() < 4 ==> m.payload.len() == 0 && m.body_len == 0
}

/// The staged reader, with its stages accepted, reads exactly as the plain
/// reader: from the same state and through the same events, both end in the
/// same state with the same outcome (the same frame, the same cut, the same
/// refusal of an oversize frame, or the same failure).
pub proof fn law_staged_run_is_plain_run(m: FrameModel, s: Seq<ScriptEvent>)
    requires
        header_idle(m),
    ensures
        staged_run(m, s) == plain_run(m, s),
    decreases s.len(),
{
    if s.len() > 0 {
        match s[0] {
            ScriptEvent::Deadline => {},
            ScriptEvent::Failed(kind) => {
                if kind.is_poll_timeout() {
                    law_staged_run_is_plain_run(m, s.drop_first());
                }
            },
            ScriptEvent::Read(d) => {
                if d.len() > 0 {
                    if m.header.len() < 4 {
                        let h = m.header + d;
                        if h.len() < 4 {
                            law_staged_run_is_plain_run(FrameModel { header: h, ..m }, s.drop_first());
                        } else {
                            let n = declared_len(h);
                            if n == 0 {
                                assert(m.payload =~= Seq::<u8>::empty());
                            } else if n <= m.max_frame_len {
                                let next = FrameModel { header: h, ..m };
                                assert(FrameModel { body_len: n, ..next } =~= FrameModel {
                                    header: h,
                                    payload: Seq::empty(),
                                    body_len: n,
                                    ..m
                                });
                                law_staged_run_is_plain_run(
                                    FrameModel { body_len: n, ..next },
                                    s.drop_first(),
                                );
                            }
                        }
                    } else {
                        let q = m.payload + d;
                        if q.len() != m.body_len {
                            law_staged_run_is_plain_run(FrameModel { payload: q, ..m }, s.drop_first());
                        }
                    }
                }
            },
        }
    }
}

/// Whether the events `s` hand a reader that has read the first `k` bytes
/// of the frame carrying `p` the rest of that frame: reads of consecutive
/// frame bytes, none crossing the header's end or reaching past the frame,
/// with polls that timed out in between, up to a read that delivers the
/// frame's last byte.
pub open spec fn feeds(p: Seq<u8>, k: nat, s: Seq<ScriptEvent>) -> bool
    decreases s.len(),
{
    if s.len() == 0 {
        false
    } else {
        match s[0] {
            ScriptEvent::Deadline => false,
            ScriptEvent::Failed(kind) => kind.is_poll_timeout() && feeds(p, k, s.drop_first()),
            ScriptEvent::Read(d) => {
                &&& 0 < d.len()
                &&& k + d.len() <= 4 + p.len()
                &&& k < 4 ==> k + d.len() <= 4
                &&& d == frame_bytes(p).subrange(k as int, (k + d.len()) as int)
                &&& k + d.len() == 4 + p.len() || feeds(p, k + d.len(), s.drop_first())
            },
        }
    }
}

/// Whole-frame round trip: however the bytes of the frame carrying `p`
/// (with `p` within the limit) arrive, in reads of any sizes a read may
/// deliver and with any polls that time out in between, the plain reader
/// and the staged reader both hand out exactly `p` and are left holding no
/// part of a frame, with the limit unchanged.
pub proof fn law_frame_read_round_trip(p: Seq<u8>, max_frame_len: nat, k: nat, s: Seq<ScriptEvent>)
    requires
        p.len() <= max_frame_len,
        p.len() <= 0xffff_ffff,
        k < 4 + p.len(),
        feeds(p, k, s),
    ensures
        plain_run(after_prefix(p, k, max_frame_len), s) == (
            fresh(max_frame_len),
            ScriptOutcome::Frame(p),
        ),
        staged_run(after_prefix(p, k, max_frame_len), s) == (
            fresh(max_frame_len),
            ScriptOutcome::Frame(p),
        ),
    decreases s.len(),
{
    let m = after_prefix(p, k, max_frame_len);
    law_staged_run_is_plain_run(m, s);
    match s[0] {
        ScriptEvent::Failed(kind) => {
            law_frame_read_round_trip(p, max_frame_len, k, s.drop_first());
        },
        ScriptEvent::Read(d) => {
            let j = d.len();
            law_frame_round_trip(p, max_frame_len, k, j);
            if k + j < 4 + p.len() {
                law_frame_read_round_trip(p, max_frame_len, k + j, s.drop_first());
            }
        },
        ScriptEvent::Deadline => {},
    }
}

} // verus!
