use reel::pipeline::{check_shutdown, stage_outcome, PipelineError};
use reel::queue::{FixedQueue, WriteOutcome};
use reel::stage::{
    demux_step, DecodeStage, DemuxAction, DemuxEvent, ErrorPolicy, PacketInfo, StageAction,
    StageEvent, StagePhase,
};

fn packet(stream_index: usize, id: u32) -> (PacketInfo, u32) {
    (PacketInfo { stream_index, duration: Some(40), size: 100 + id as usize }, id)
}

/// A stand-in codec: each packet it accepts yields one frame carrying the
/// packet's id; `reject` names a packet id it refuses.
struct Codec {
    pending: Option<u32>,
    reject: Option<u32>,
}

/// Runs a decode stage over `packets` into `frames` until it leaves, with
/// `cancel_after` polls before cancellation is observed. Returns the last action.
fn run_stage(
    stage: &mut DecodeStage,
    packets: &mut FixedQueue<(PacketInfo, u32)>,
    frames: &mut FixedQueue<u32>,
    codec: &mut Codec,
    cancel_after: Option<usize>,
) -> StageAction {
    let mut polls = 0usize;
    let mut current: Option<u32> = None;
    let mut frame: Option<u32> = None;
    let mut action = stage.step(StageEvent::Empty);
    for _ in 0..1000 {
        let event = match action {
            StageAction::Poll => {
                polls += 1;
                if cancel_after.map_or(false, |n| polls > n) {
                    StageEvent::Cancelled
                } else {
                    match packets.read() {
                        None => StageEvent::Empty,
                        Some((info, id)) => {
                            current = Some(id);
                            StageEvent::Packet(info)
                        }
                    }
                }
            }
            StageAction::Submit => {
                let id = current.take().unwrap();
                if codec.reject == Some(id) {
                    StageEvent::Rejected
                } else {
                    codec.pending = Some(id);
                    StageEvent::Accepted
                }
            }
            StageAction::Pull => match codec.pending.take() {
                Some(f) => {
                    frame = Some(f);
                    StageEvent::Frame
                }
                None => StageEvent::Drained,
            },
            StageAction::Forward => match frames.write(frame.take().unwrap()) {
                WriteOutcome::Written => StageEvent::Forwarded,
                _ => StageEvent::Cancelled,
            },
            StageAction::Flush => StageEvent::Accepted,
            StageAction::Exit | StageAction::Fail => return action,
        };
        action = stage.step(event);
    }
    panic!("the stage did not stop");
}

fn drain(frames: &mut FixedQueue<u32>) -> Vec<u32> {
    let mut out = Vec::new();
    while let Some(f) = frames.read() {
        out.push(f);
    }
    out
}

#[test]
fn decode_stage_keeps_packet_order_and_stops_at_marker() {
    let mut packets: FixedQueue<(PacketInfo, u32)> = FixedQueue::new(25);
    for id in 1..=5u32 {
        assert!(matches!(packets.write(packet(0, id)), WriteOutcome::Written));
    }
    assert!(matches!(packets.write((PacketInfo::end_of_stream(0), 0)), WriteOutcome::Written));
    let mut frames: FixedQueue<u32> = FixedQueue::new(25);
    let mut stage = DecodeStage::new(0, ErrorPolicy::Abort);
    let mut codec = Codec { pending: None, reject: None };
    let last = run_stage(&mut stage, &mut packets, &mut frames, &mut codec, None);
    assert_eq!(last, StageAction::Exit);
    assert_eq!(stage.phase(), StagePhase::Stopped);
    assert_eq!(drain(&mut frames), vec![1, 2, 3, 4, 5]);
    assert_eq!(stage_outcome(last), Ok(()));
}

#[test]
fn decode_stage_ignores_other_streams() {
    let mut packets: FixedQueue<(PacketInfo, u32)> = FixedQueue::new(25);
    assert!(matches!(packets.write(packet(1, 10)), WriteOutcome::Written));
    assert!(matches!(packets.write(packet(0, 11)), WriteOutcome::Written));
    assert!(matches!(packets.write((PacketInfo::end_of_stream(0), 0)), WriteOutcome::Written));
    let mut frames: FixedQueue<u32> = FixedQueue::new(25);
    let mut stage = DecodeStage::new(0, ErrorPolicy::Abort);
    assert_eq!(stage.stream_index(), 0);
    let mut codec = Codec { pending: None, reject: None };
    run_stage(&mut stage, &mut packets, &mut frames, &mut codec, None);
    assert_eq!(drain(&mut frames), vec![11]);
}

#[test]
fn rejected_packet_is_fatal_under_abort() {
    let mut packets: FixedQueue<(PacketInfo, u32)> = FixedQueue::new(25);
    for id in 1..=3u32 {
        assert!(matches!(packets.write(packet(0, id)), WriteOutcome::Written));
    }
    let mut frames: FixedQueue<u32> = FixedQueue::new(25);
    let mut stage = DecodeStage::new(0, ErrorPolicy::Abort);
    let mut codec = Codec { pending: None, reject: Some(2) };
    let last = run_stage(&mut stage, &mut packets, &mut frames, &mut codec, None);
    assert_eq!(last, StageAction::Fail);
    assert_eq!(drain(&mut frames), vec![1]);
    assert_eq!(stage_outcome(last), Err(PipelineError::Decode));
}

#[test]
fn rejected_packet_is_skipped_under_skip() {
    let mut packets: FixedQueue<(PacketInfo, u32)> = FixedQueue::new(25);
    for id in 1..=3u32 {
        assert!(matches!(packets.write(packet(0, id)), WriteOutcome::Written));
    }
    assert!(matches!(packets.write((PacketInfo::end_of_stream(0), 0)), WriteOutcome::Written));
    let mut frames: FixedQueue<u32> = FixedQueue::new(25);
    let mut stage = DecodeStage::new(0, ErrorPolicy::Skip);
    let mut codec = Codec { pending: None, reject: Some(2) };
    let last = run_stage(&mut stage, &mut packets, &mut frames, &mut codec, None);
    assert_eq!(last, StageAction::Exit);
    assert_eq!(drain(&mut frames), vec![1, 3]);
}

#[test]
fn cancelled_pipeline_stops_with_packets_unread() {
    // Demux side: a short synthetic input of eight packets on stream 0.
    let mut packets: FixedQueue<(PacketInfo, u32)> = FixedQueue::new(2);
    let input: Vec<(PacketInfo, u32)> = (1..=8u32).map(|id| packet(0, id)).collect();
    let mut next = 0usize;
    let mut demux_last = DemuxAction::Skip;
    for _ in 0..100 {
        let event = if next < input.len() {
            DemuxEvent::Packet(input[next].0)
        } else {
            DemuxEvent::EndOfInput
        };
        demux_last = demux_step(0, event);
        match demux_last {
            DemuxAction::Forward => match packets.write(input[next]) {
                WriteOutcome::Written => next += 1,
                WriteOutcome::Full(_) => {
                    // The coordinator stops the run while the demuxer waits.
                    packets.cancel();
                }
                WriteOutcome::Cancelled(_) => {
                    demux_last = demux_step(0, DemuxEvent::Cancelled);
                    break;
                }
            },
            DemuxAction::Skip => next += 1,
            DemuxAction::SendEndMarker | DemuxAction::Exit => break,
        }
    }
    assert_eq!(demux_last, DemuxAction::Exit);
    assert_eq!(next, 2);

    // Decode side: cancellation is observed at the first poll.
    let mut frames: FixedQueue<u32> = FixedQueue::new(25);
    frames.cancel();
    let mut stage = DecodeStage::new(0, ErrorPolicy::Abort);
    let mut codec = Codec { pending: None, reject: None };
    let last = run_stage(&mut stage, &mut packets, &mut frames, &mut codec, Some(0));
    assert_eq!(last, StageAction::Exit);
    assert_eq!(stage.phase(), StagePhase::Stopped);
    assert!(packets.read().is_some());
}

#[test]
fn idle_stage_cancelled_stops_at_once() {
    let mut stage = DecodeStage::new(3, ErrorPolicy::Abort);
    assert_eq!(stage.phase(), StagePhase::Idle);
    assert_eq!(stage.step(StageEvent::Cancelled), StageAction::Exit);
    assert_eq!(stage.phase(), StagePhase::Stopped);
    assert_eq!(stage.step(StageEvent::Empty), StageAction::Exit);
}

#[test]
fn draining_stage_passes_on_buffered_frames() {
    let mut stage = DecodeStage::new(0, ErrorPolicy::Abort);
    assert_eq!(stage.step(StageEvent::Empty), StageAction::Poll);
    assert_eq!(stage.step(StageEvent::Cancelled), StageAction::Flush);
    assert_eq!(stage.phase(), StagePhase::Draining);
    assert_eq!(stage.step(StageEvent::Accepted), StageAction::Pull);
    assert_eq!(stage.step(StageEvent::Frame), StageAction::Forward);
    assert_eq!(stage.step(StageEvent::Forwarded), StageAction::Pull);
    assert_eq!(stage.step(StageEvent::Drained), StageAction::Exit);
    assert_eq!(stage.phase(), StagePhase::Stopped);
}

#[test]
fn end_of_stream_marker_shape() {
    let marker = PacketInfo::end_of_stream(4);
    assert_eq!(marker.stream_index, 4);
    assert_eq!(marker.duration, Some(-1));
    assert_eq!(marker.size, 0);
    assert!(marker.is_end_of_stream());
    assert!(!PacketInfo { stream_index: 4, duration: Some(-1), size: 3 }.is_end_of_stream());
    assert!(!PacketInfo { stream_index: 4, duration: None, size: 0 }.is_end_of_stream());
}

#[test]
fn demux_routes_by_stream() {
    let p = PacketInfo { stream_index: 1, duration: None, size: 10 };
    assert_eq!(demux_step(1, DemuxEvent::Packet(p)), DemuxAction::Forward);
    assert_eq!(demux_step(0, DemuxEvent::Packet(p)), DemuxAction::Skip);
    assert_eq!(demux_step(0, DemuxEvent::EndOfInput), DemuxAction::SendEndMarker);
    assert_eq!(demux_step(0, DemuxEvent::Cancelled), DemuxAction::Exit);
}

#[test]
fn shutdown_budget() {
    assert_eq!(check_shutdown(true, 50, 20), Ok(true));
    assert_eq!(check_shutdown(false, 3, 20), Ok(false));
    assert_eq!(check_shutdown(false, 20, 20), Err(PipelineError::ShutdownTimeout));
}
