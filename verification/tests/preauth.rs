use neko_cli::error::ErrorKind;
use neko_cli::framed::{FrameError, FrameRead, FrameStage};
use neko_cli::net::{IpAddress, SocketAddress};
use neko_cli::preauth::{
    remaining_budget, remedy, source_key, stage_charge, staged_frame_result, AdmissionCharge,
    CarrierKind, FramePart, FrameWriter, Refusal, Remedy, StageCharge, WriteError, WriteOutcome,
    WriteStep,
};

/// A sink that takes at most `chunk` bytes per write and records them.
struct PartialWriter {
    bytes: Vec<u8>,
    chunk: usize,
}

impl PartialWriter {
    fn write_with_budget(&mut self, bytes: &[u8], _budget_ms: u64) -> WriteOutcome {
        let count = bytes.len().min(self.chunk);
        self.bytes.extend_from_slice(&bytes[..count]);
        WriteOutcome::Written(count)
    }
}

/// Drives a response frame to the sink under one absolute deadline.
fn write_frame_until(
    writer: &mut PartialWriter,
    payload: &[u8],
    frame_len: u32,
    mut now: impl FnMut() -> u64,
    deadline_ms: u64,
) -> Result<(), WriteError> {
    let mut frame = FrameWriter::new(payload.to_vec(), frame_len, deadline_ms);
    loop {
        match frame.next_step(now())? {
            WriteStep::Write { part, offset, budget_ms } => {
                let bytes = match part {
                    FramePart::Header => &frame.header()[offset..],
                    FramePart::Payload => &frame.payload()[offset..],
                };
                let outcome = writer.write_with_budget(bytes, budget_ms);
                frame.on_write(outcome)?;
            }
            WriteStep::Flush { .. } => return Ok(()),
        }
    }
}

#[test]
fn framed_response_uses_one_absolute_deadline_across_partial_writes() {
    let ticks = [0, 10, 20, 30, 99];
    let mut index = 0;
    let mut writer = PartialWriter { bytes: Vec::new(), chunk: 2 };
    write_frame_until(
        &mut writer,
        b"abcd",
        4,
        || {
            let tick = ticks[index.min(ticks.len() - 1)];
            index += 1;
            tick
        },
        100,
    )
    .unwrap();
    assert_eq!(writer.bytes, [0, 0, 0, 4, b'a', b'b', b'c', b'd']);

    let ticks = [0, 10, 20, 100];
    let mut index = 0;
    let mut writer = PartialWriter { bytes: Vec::new(), chunk: 2 };
    assert_eq!(
        write_frame_until(
            &mut writer,
            b"abcd",
            4,
            || {
                let tick = ticks[index.min(ticks.len() - 1)];
                index += 1;
                tick
            },
            100
        )
        .unwrap_err()
        .kind(),
        ErrorKind::TimedOut
    );
    assert_ne!(writer.bytes, [0, 0, 0, 4, b'a', b'b', b'c', b'd']);
}

#[test]
fn response_writer_reports_stalls_interrupts_and_failures() {
    let mut frame = FrameWriter::new(b"xy".to_vec(), 2, 50);
    assert_eq!(
        frame.next_step(0),
        Ok(WriteStep::Write { part: FramePart::Header, offset: 0, budget_ms: 50 })
    );
    assert_eq!(frame.on_write(WriteOutcome::Failed(ErrorKind::Interrupted)), Ok(()));
    assert_eq!(frame.on_write(WriteOutcome::Written(4)), Ok(()));
    assert_eq!(
        frame.next_step(49),
        Ok(WriteStep::Write { part: FramePart::Payload, offset: 0, budget_ms: 1 })
    );
    assert_eq!(frame.on_write(WriteOutcome::Written(0)), Err(WriteError::Stalled));
    assert_eq!(WriteError::Stalled.kind(), ErrorKind::WriteZero);
    assert_eq!(
        frame.on_write(WriteOutcome::Failed(ErrorKind::Other)),
        Err(WriteError::Io(ErrorKind::Other))
    );
    assert_eq!(frame.on_write(WriteOutcome::Written(2)), Ok(()));
    assert!(frame.is_sent());
    assert_eq!(frame.next_step(10), Ok(WriteStep::Flush { budget_ms: 40 }));
    assert_eq!(frame.next_step(50), Err(WriteError::DeadlineElapsed));
    let empty = FrameWriter::new(Vec::new(), 0, 5);
    assert_eq!(empty.header(), &[0, 0, 0, 0]);
    let big = FrameWriter::new(Vec::new(), 0x0102_0304, 5);
    assert_eq!(big.header(), &[1, 2, 3, 4]);
}

#[test]
fn remaining_budget_is_strictly_before_the_deadline() {
    assert_eq!(remaining_budget(10, 100), Ok(90));
    assert_eq!(remaining_budget(99, 100), Ok(1));
    assert_eq!(remaining_budget(100, 100), Err(WriteError::DeadlineElapsed));
    assert_eq!(remaining_budget(101, 100), Err(WriteError::DeadlineElapsed));
}

fn v4(a: [u8; 4], port: u16) -> SocketAddress {
    SocketAddress { ip: IpAddress::V4(u32::from_be_bytes(a)), port }
}

#[test]
fn source_projection_is_family_and_port_bound_without_text() {
    let a = v4([127, 0, 0, 1], 40080);
    let b = v4([127, 0, 0, 1], 40081);
    let v6 = SocketAddress { ip: IpAddress::V6(1), port: 40080 };
    assert_ne!(source_key(CarrierKind::Tcp, a), source_key(CarrierKind::Tcp, b));
    assert_ne!(source_key(CarrierKind::Tcp, a), source_key(CarrierKind::Tcp, v6));
    assert_ne!(source_key(CarrierKind::Tcp, a), source_key(CarrierKind::Udp, a));
    assert_eq!(source_key(CarrierKind::Tcp, a).len(), 8);
    assert_eq!(source_key(CarrierKind::Udp, v6).len(), 20);
}

#[test]
fn source_key_bytes_are_exact() {
    assert_eq!(
        source_key(CarrierKind::Tcp, v4([198, 51, 100, 7], 40100)),
        vec![1, 4, 198, 51, 100, 7, 0x9c, 0xa4]
    );
    let mut expected = vec![2, 6];
    expected.extend_from_slice(&[0u8; 15]);
    expected.push(1);
    expected.extend_from_slice(&[0x9c, 0x90]);
    assert_eq!(
        source_key(CarrierKind::Udp, SocketAddress { ip: IpAddress::V6(1), port: 40080 }),
        expected
    );
}

#[test]
fn stage_charges_follow_the_allowances() {
    assert_eq!(
        stage_charge(FrameStage::Header { bytes: 4, work: 64 }, 64, 4096),
        Some(StageCharge::Begin { bytes: 4, work: 64 })
    );
    assert_eq!(
        stage_charge(FrameStage::Header { bytes: 4, work: 100 }, 10, 4096),
        Some(StageCharge::Begin { bytes: 4, work: 46 })
    );
    assert_eq!(stage_charge(FrameStage::Header { bytes: 4, work: 65 }, usize::MAX, 0), None);
    assert_eq!(
        stage_charge(FrameStage::Body { bytes: 7, work: 4096 }, 64, 4096),
        Some(StageCharge::Extend { bytes: 7, work: 4032 })
    );
    assert_eq!(
        stage_charge(FrameStage::Body { bytes: 7, work: 10 }, 64, 4096),
        Some(StageCharge::Extend { bytes: 7, work: 10 })
    );
    assert_eq!(
        stage_charge(FrameStage::Body { bytes: 7, work: 10 }, 100, 50),
        Some(StageCharge::Extend { bytes: 7, work: 0 })
    );
    assert_eq!(stage_charge(FrameStage::Complete, 1, 1), Some(StageCharge::Complete));
}

#[test]
fn staged_frame_results_map_to_errors() {
    assert_eq!(staged_frame_result(Ok(FrameRead::Complete(vec![1]))), Ok(vec![1]));
    assert_eq!(
        staged_frame_result(Ok(FrameRead::Deadline)),
        Err(FrameError::Io(ErrorKind::TimedOut))
    );
    assert_eq!(
        staged_frame_result(Ok(FrameRead::CleanEof)),
        Err(FrameError::Io(ErrorKind::UnexpectedEof))
    );
    assert_eq!(
        staged_frame_result(Ok(FrameRead::Truncated)),
        Err(FrameError::Io(ErrorKind::UnexpectedEof))
    );
    assert_eq!(staged_frame_result(Err(FrameError::TooLarge)), Err(FrameError::TooLarge));
}

#[test]
fn connection_refusals_terminalize_and_process_refusals_roll_back_plain_charges() {
    let all = [
        AdmissionCharge::BeginRecord,
        AdmissionCharge::ExtendRecord,
        AdmissionCharge::CompleteRecord,
        AdmissionCharge::Input,
        AdmissionCharge::Response,
    ];
    for charge in all {
        assert_eq!(remedy(charge, Refusal::Connection), Remedy::RejectState);
    }
    assert_eq!(remedy(AdmissionCharge::BeginRecord, Refusal::Process), Remedy::RejectState);
    assert_eq!(remedy(AdmissionCharge::ExtendRecord, Refusal::Process), Remedy::RejectState);
    assert_eq!(remedy(AdmissionCharge::CompleteRecord, Refusal::Process), Remedy::RejectState);
    assert_eq!(remedy(AdmissionCharge::Input, Refusal::Process), Remedy::RollbackInput);
    assert_eq!(remedy(AdmissionCharge::Response, Refusal::Process), Remedy::RollbackResponse);
}
