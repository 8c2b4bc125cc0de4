use tcp_relay::pump::IoOp;
use tcp_relay::pump::Pump;
use tcp_relay::pump::PumpCommand;
use tcp_relay::pump::PumpEvent;
use tcp_relay::pump::PumpOutcome;
use tcp_relay::pump::PumpPhase;
use tcp_relay::pump::PumpReply;
use tcp_relay::pump::DEFAULT_CAPACITY;

fn nothing() -> PumpReply {
    PumpReply { command: PumpCommand::Nothing, signal: false }
}

fn reading(capacity: usize) -> Pump {
    let mut pump = Pump::new(capacity).unwrap();
    pump.step(PumpEvent::Started);
    pump.step(PumpEvent::Writable);
    pump
}

fn failed_during(during: IoOp, detail: &str) -> PumpReply {
    PumpReply {
        command: PumpCommand::Stop {
            outcome: PumpOutcome::Failed { during, detail: detail.to_string() },
        },
        signal: false,
    }
}

#[test]
fn pump_needs_a_buffer() {
    assert!(Pump::new(0).is_none());
    assert!(Pump::new(1).is_some());
    assert!(Pump::new(usize::MAX).is_some());
    let pump = Pump::new(DEFAULT_CAPACITY).unwrap();
    assert_eq!(pump.capacity(), 1024);
    assert_eq!(pump.phase(), PumpPhase::Created);
    assert!(!pump.is_finished());
}

#[test]
fn pump_runs_one_round() {
    let mut pump = Pump::new(16).unwrap();
    assert_eq!(
        pump.step(PumpEvent::Started),
        PumpReply { command: PumpCommand::AwaitWritable, signal: false }
    );
    assert_eq!(pump.phase(), PumpPhase::Awaiting(IoOp::Readiness));
    assert_eq!(
        pump.step(PumpEvent::Writable),
        PumpReply { command: PumpCommand::Read { capacity: 16 }, signal: true }
    );
    assert_eq!(pump.phase(), PumpPhase::Awaiting(IoOp::Read));
    assert_eq!(
        pump.step(PumpEvent::Data { bytes: vec![b'P', b'I', b'N', b'G'] }),
        PumpReply {
            command: PumpCommand::Write { data: vec![b'P', b'I', b'N', b'G'] },
            signal: true
        }
    );
    assert_eq!(pump.phase(), PumpPhase::Awaiting(IoOp::Write));
    assert_eq!(
        pump.step(PumpEvent::Written),
        PumpReply { command: PumpCommand::Flush, signal: false }
    );
    assert_eq!(pump.phase(), PumpPhase::Awaiting(IoOp::Flush));
    assert_eq!(
        pump.step(PumpEvent::Flushed),
        PumpReply { command: PumpCommand::AwaitWritable, signal: true }
    );
    assert_eq!(pump.phase(), PumpPhase::Awaiting(IoOp::Readiness));
    assert_eq!(pump.capacity(), 16);
}

#[test]
fn pump_passes_end_of_stream_on() {
    let mut pump = reading(16);
    assert_eq!(
        pump.step(PumpEvent::Data { bytes: vec![] }),
        PumpReply { command: PumpCommand::Shutdown, signal: true }
    );
    assert_eq!(pump.phase(), PumpPhase::Awaiting(IoOp::Shutdown));
    assert_eq!(
        pump.step(PumpEvent::Closed),
        PumpReply {
            command: PumpCommand::Stop { outcome: PumpOutcome::EndOfStream },
            signal: false
        }
    );
    assert!(pump.is_finished());
    assert_eq!(pump.phase(), PumpPhase::Finished);
}

#[test]
fn pump_fails_while_waiting_for_readiness() {
    let mut pump = Pump::new(8).unwrap();
    pump.step(PumpEvent::Started);
    assert_eq!(
        pump.step(PumpEvent::Failed { detail: "not writable".to_string() }),
        failed_during(IoOp::Readiness, "not writable")
    );
    assert!(pump.is_finished());
}

#[test]
fn pump_fails_while_reading() {
    let mut pump = reading(8);
    assert_eq!(
        pump.step(PumpEvent::Failed { detail: "connection reset".to_string() }),
        failed_during(IoOp::Read, "connection reset")
    );
    assert!(pump.is_finished());
}

#[test]
fn pump_fails_while_writing() {
    let mut pump = reading(8);
    pump.step(PumpEvent::Data { bytes: vec![1, 2, 3] });
    assert_eq!(
        pump.step(PumpEvent::Failed { detail: "broken pipe".to_string() }),
        failed_during(IoOp::Write, "broken pipe")
    );
    assert!(pump.is_finished());
}

#[test]
fn pump_fails_while_flushing() {
    let mut pump = reading(8);
    pump.step(PumpEvent::Data { bytes: vec![1, 2, 3] });
    pump.step(PumpEvent::Written);
    assert_eq!(
        pump.step(PumpEvent::Failed { detail: "flush".to_string() }),
        failed_during(IoOp::Flush, "flush")
    );
    assert!(pump.is_finished());
}

#[test]
fn pump_fails_while_shutting_down() {
    let mut pump = reading(8);
    pump.step(PumpEvent::Data { bytes: vec![] });
    assert_eq!(
        pump.step(PumpEvent::Failed { detail: "not connected".to_string() }),
        failed_during(IoOp::Shutdown, "not connected")
    );
    assert!(pump.is_finished());
}

#[test]
fn pump_retries_nothing_after_a_failure() {
    let mut pump = reading(8);
    pump.step(PumpEvent::Failed { detail: "reset".to_string() });
    assert_eq!(pump.step(PumpEvent::Started), nothing());
    assert_eq!(pump.step(PumpEvent::Writable), nothing());
    assert_eq!(pump.step(PumpEvent::Data { bytes: vec![7] }), nothing());
    assert_eq!(pump.step(PumpEvent::Written), nothing());
    assert_eq!(pump.step(PumpEvent::Flushed), nothing());
    assert_eq!(pump.step(PumpEvent::Closed), nothing());
    assert_eq!(pump.step(PumpEvent::Failed { detail: "again".to_string() }), nothing());
    assert_eq!(pump.phase(), PumpPhase::Finished);
}

#[test]
fn pump_leaves_unasked_events_unanswered() {
    let mut pump = Pump::new(8).unwrap();
    assert_eq!(pump.step(PumpEvent::Writable), nothing());
    assert_eq!(pump.step(PumpEvent::Failed { detail: "early".to_string() }), nothing());
    assert_eq!(pump.phase(), PumpPhase::Created);
    pump.step(PumpEvent::Started);
    assert_eq!(pump.step(PumpEvent::Started), nothing());
    assert_eq!(pump.step(PumpEvent::Data { bytes: vec![1] }), nothing());
    assert_eq!(pump.step(PumpEvent::Flushed), nothing());
    assert_eq!(pump.phase(), PumpPhase::Awaiting(IoOp::Readiness));
    pump.step(PumpEvent::Writable);
    assert_eq!(pump.step(PumpEvent::Writable), nothing());
    assert_eq!(pump.step(PumpEvent::Closed), nothing());
    assert_eq!(pump.phase(), PumpPhase::Awaiting(IoOp::Read));
    pump.step(PumpEvent::Data { bytes: vec![1] });
    assert_eq!(pump.step(PumpEvent::Data { bytes: vec![2] }), nothing());
    assert_eq!(pump.step(PumpEvent::Flushed), nothing());
    assert_eq!(pump.phase(), PumpPhase::Awaiting(IoOp::Write));
    pump.step(PumpEvent::Written);
    assert_eq!(pump.step(PumpEvent::Written), nothing());
    assert_eq!(pump.phase(), PumpPhase::Awaiting(IoOp::Flush));
}

#[test]
fn pump_hands_on_a_chunk_of_any_length() {
    let mut pump = reading(4);
    let chunk: Vec<u8> = (0..=255).collect();
    assert_eq!(
        pump.step(PumpEvent::Data { bytes: chunk.clone() }),
        PumpReply { command: PumpCommand::Write { data: chunk }, signal: true }
    );
    let mut pump = reading(4);
    assert_eq!(
        pump.step(PumpEvent::Data { bytes: vec![0] }),
        PumpReply { command: PumpCommand::Write { data: vec![0] }, signal: true }
    );
}

#[test]
fn pump_relays_exactly_what_it_reads() {
    let message: Vec<u8> = (0..5000u32).map(|i| (i * 7 % 251) as u8).collect();
    let mut pump = Pump::new(DEFAULT_CAPACITY).unwrap();
    let mut handed_on: Vec<u8> = Vec::new();
    let mut signals = 0;
    let mut reply = pump.step(PumpEvent::Started);
    let mut sent = 0;
    loop {
        if reply.signal {
            signals += 1;
        }
        let event = match reply.command {
            PumpCommand::AwaitWritable => PumpEvent::Writable,
            PumpCommand::Read { capacity } => {
                let end = (sent + capacity).min(message.len());
                let bytes = message[sent..end].to_vec();
                sent = end;
                PumpEvent::Data { bytes }
            }
            PumpCommand::Write { data } => {
                assert!(!data.is_empty());
                handed_on.extend_from_slice(&data);
                PumpEvent::Written
            }
            PumpCommand::Flush => PumpEvent::Flushed,
            PumpCommand::Shutdown => PumpEvent::Closed,
            PumpCommand::Stop { outcome } => {
                assert_eq!(outcome, PumpOutcome::EndOfStream);
                break;
            }
            PumpCommand::Nothing => panic!("every event was asked for"),
        };
        reply = pump.step(event);
    }
    assert_eq!(handed_on, message);
    // Five chunks of three signs of life each, then one for the readiness
    // before the last read and one for the read that found the end.
    assert_eq!(signals, 5 * 3 + 2);
    assert!(pump.is_finished());
}
