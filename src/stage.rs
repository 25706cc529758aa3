use vstd::prelude::*;

verus! {

/// Duration carried by the marker packet that ends a stream.
pub const END_OF_STREAM_DURATION: i64 = -1;

/// What the pipeline needs to know of an encoded packet: the stream it
/// belongs to, its duration if known, and the size of its payload.
#[derive(Clone, Copy, Debug)]
pub struct PacketInfo {
    pub stream_index: usize,
    pub duration: Option<i64>,
    pub size: usize,
}

impl PacketInfo {
    /// The end-of-stream marker: a duration of -1 and an empty payload.
    pub open spec fn spec_is_end_of_stream(&self) -> bool {
        self.duration == Some(END_OF_STREAM_DURATION) && self.size == 0
    }

    /// The marker that tells the decode stage of `stream_index` that no more
    /// packets follow.
    pub fn end_of_stream(stream_index: usize) -> (p: PacketInfo)
        ensures
            p.stream_index == stream_index,
            p.spec_is_end_of_stream(),
    {
        PacketInfo { stream_index, duration: Some(END_OF_STREAM_DURATION), size: 0 }
    }

    pub fn is_end_of_stream(&self) -> (r: bool)
        ensures
            r == self.spec_is_end_of_stream(),
    {
        match self.duration {
            Some(d) => d == END_OF_STREAM_DURATION && self.size == 0,
            None => false,
        }
    }
}

/// The life cycle of a decode stage.
#[derive(PartialEq, Eq, Structural, Clone, Copy, Debug)]
pub enum StagePhase {
    /// Built, not started.
    Idle,
    /// Reading packets and passing on what the codec makes of them.
    Running,
    /// No more input: the codec was told so and its buffered frames are
    /// being passed on.
    Draining,
    /// Done; the stage touches no queue any more.
    Stopped,
}

/// What to do with a packet that the codec rejects.
#[derive(PartialEq, Eq, Structural, Clone, Copy, Debug)]
pub enum ErrorPolicy {
    /// Stop the stage and report a fatal decode error.
    Abort,
    /// Drop the packet and go on with the next one.
    Skip,
}

/// What the thread that runs a decode stage observed last.
#[derive(Clone, Copy, Debug)]
pub enum StageEvent {
    /// Cancellation was requested, or the output queue released its writer.
    Cancelled,
    /// The input queue had no packet.
    Empty,
    /// A packet was taken from the input queue.
    Packet(PacketInfo),
    /// The codec took the packet, or the end-of-input notice.
    Accepted,
    /// The codec refused the packet, or the end-of-input notice.
    Rejected,
    /// The codec handed out a decoded frame.
    Frame,
    /// The codec has no frame to hand out.
    Drained,
    /// The last frame was appended to the output queue.
    Forwarded,
}

/// What the thread that runs a decode stage does next.
#[derive(PartialEq, Eq, Structural, Clone, Copy, Debug)]
pub enum StageAction {
    /// Check for cancellation, then try to take a packet from the input queue.
    Poll,
    /// Give the packet just taken to the codec.
    Submit,
    /// Ask the codec for its next decoded frame.
    Pull,
    /// Append the frame just pulled to the output queue.
    Forward,
    /// Tell the codec that no more input comes.
    Flush,
    /// Leave the thread: the stage ended in order.
    Exit,
    /// Leave the thread and report a fatal decode error.
    Fail,
}

/// The transition of a decode stage for `stream_index` from `phase` on
/// `event`: the phase it moves to and the action it asks for.
pub open spec fn next_step(
    phase: StagePhase,
    stream_index: usize,
    policy: ErrorPolicy,
    event: StageEvent,
) -> (StagePhase, StageAction) {
    match phase {
        StagePhase::Idle => match event {
            StageEvent::Cancelled => (StagePhase::Stopped, StageAction::Exit),
            _ => (StagePhase::Running, StageAction::Poll),
        },
        StagePhase::Running => match event {
            StageEvent::Cancelled => (StagePhase::Draining, StageAction::Flush),
            StageEvent::Empty => (StagePhase::Running, StageAction::Poll),
            StageEvent::Packet(p) => if p.spec_is_end_of_stream() {
                (StagePhase::Draining, StageAction::Flush)
            } else if p.stream_index == stream_index {
                (StagePhase::Running, StageAction::Submit)
            } else {
                (StagePhase::Running, StageAction::Poll)
            },
            StageEvent::Accepted => (StagePhase::Running, StageAction::Pull),
            StageEvent::Rejected => if policy == ErrorPolicy::Skip {
                (StagePhase::Running, StageAction::Poll)
            } else {
                (StagePhase::Stopped, StageAction::Fail)
            },
            StageEvent::Frame => (StagePhase::Running, StageAction::Forward),
            StageEvent::Drained => (StagePhase::Running, StageAction::Poll),
            StageEvent::Forwarded => (StagePhase::Running, StageAction::Pull),
        },
        StagePhase::Draining => match event {
            StageEvent::Frame => (StagePhase::Draining, StageAction::Forward),
            StageEvent::Drained => (StagePhase::Stopped, StageAction::Exit),
            StageEvent::Rejected => if policy == ErrorPolicy::Skip {
                (StagePhase::Stopped, StageAction::Exit)
            } else {
                (StagePhase::Stopped, StageAction::Fail)
            },
            _ => (StagePhase::Draining, StageAction::Pull),
        },
        StagePhase::Stopped => (StagePhase::Stopped, StageAction::Exit),
    }
}

/// The decisions of one decode stage: which packets it decodes, when it
/// drains the codec, and when it stops. The thread that runs it performs each
/// action and reports what came of it.
pub struct DecodeStage {
    stream_index: usize,
    policy: ErrorPolicy,
    phase: StagePhase,
}

impl DecodeStage {
    pub closed spec fn spec_phase(&self) -> StagePhase {
        self.phase
    }

    pub closed spec fn spec_stream_index(&self) -> usize {
        self.stream_index
    }

    pub closed spec fn spec_policy(&self) -> ErrorPolicy {
        self.policy
    }

    /// An idle stage that decodes the packets of `stream_index`.
    pub fn new(stream_index: usize, policy: ErrorPolicy) -> (s: DecodeStage)
        ensures
            s.spec_phase() == StagePhase::Idle,
            s.spec_stream_index() == stream_index,
            s.spec_policy() == policy,
    {
        DecodeStage { stream_index, policy, phase: StagePhase::Idle }
    }

    /// Moves the stage on by `event` and returns the action to perform.
    pub fn step(&mut self, event: StageEvent) -> (r: StageAction)
        ensures
            (final(self).spec_phase(), r) == next_step(
                old(self).spec_phase(),
                old(self).spec_stream_index(),
                old(self).spec_policy(),
                event,
            ),
            final(self).spec_stream_index() == old(self).spec_stream_index(),
            final(self).spec_policy() == old(self).spec_policy(),
    {
        let (phase, action) = match self.phase {
            StagePhase::Idle => match event {
                StageEvent::Cancelled => (StagePhase::Stopped, StageAction::Exit),
                _ => (StagePhase::Running, StageAction::Poll),
            },
            StagePhase::Running => match event {
                StageEvent::Cancelled => (StagePhase::Draining, StageAction::Flush),
                StageEvent::Empty => (StagePhase::Running, StageAction::Poll),
                StageEvent::Packet(p) => if p.is_end_of_stream() {
                    (StagePhase::Draining, StageAction::Flush)
                } else if p.stream_index == self.stream_index {
                    (StagePhase::Running, StageAction::Submit)
                } else {
                    (StagePhase::Running, StageAction::Poll)
                },
                StageEvent::Accepted => (StagePhase::Running, StageAction::Pull),
                StageEvent::Rejected => match self.policy {
                    ErrorPolicy::Skip => (StagePhase::Running, StageAction::Poll),
                    ErrorPolicy::Abort => (StagePhase::Stopped, StageAction::Fail),
                },
                StageEvent::Frame => (StagePhase::Running, StageAction::Forward),
                StageEvent::Drained => (StagePhase::Running, StageAction::Poll),
                StageEvent::Forwarded => (StagePhase::Running, StageAction::Pull),
            },
            StagePhase::Draining => match event {
                StageEvent::Frame => (StagePhase::Draining, StageAction::Forward),
                StageEvent::Drained => (StagePhase::Stopped, StageAction::Exit),
                StageEvent::Rejected => match self.policy {
                    ErrorPolicy::Skip => (StagePhase::Stopped, StageAction::Exit),
                    ErrorPolicy::Abort => (StagePhase::Stopped, StageAction::Fail),
                },
                _ => (StagePhase::Draining, StageAction::Pull),
            },
            StagePhase::Stopped => (StagePhase::Stopped, StageAction::Exit),
        };
        self.phase = phase;
        action
    }

    pub fn phase(&self) -> (r: StagePhase)
        ensures
            r == self.spec_phase(),
    {
        self.phase
    }

    pub fn stream_index(&self) -> (r: usize)
        ensures
            r == self.spec_stream_index(),
    {
        self.stream_index
    }
}


/// Once cancellation is observed, or the end-of-stream marker is taken, a
/// running stage tells the codec that input has ended; from then on it never
/// reads or submits another packet, it passes on what the codec still holds,
/// and it stops for good when the codec is drained.
pub proof fn lemma_orderly_shutdown(
    stream_index: usize,
    policy: ErrorPolicy,
    marker: PacketInfo,
    event: StageEvent,
)
    requires
        marker.spec_is_end_of_stream(),
    ensures
        next_step(StagePhase::Running, stream_index, policy, StageEvent::Cancelled) == (
            StagePhase::Draining,
            StageAction::Flush,
        ),
        next_step(StagePhase::Running, stream_index, policy, StageEvent::Packet(marker)) == (
            StagePhase::Draining,
            StageAction::Flush,
        ),
        ({
            let (phase, action) = next_step(StagePhase::Draining, stream_index, policy, event);
            &&& phase == StagePhase::Draining || phase == StagePhase::Stopped
            &&& action != StageAction::Poll
            &&& action != StageAction::Submit
            &&& action != StageAction::Flush
        }),
        next_step(StagePhase::Draining, stream_index, policy, StageEvent::Drained) == (
            StagePhase::Stopped,
            StageAction::Exit,
        ),
        next_step(StagePhase::Stopped, stream_index, policy, event) == (
            StagePhase::Stopped,
            StageAction::Exit,
        ),
{
}

/// A running stage handles one packet at a time: it submits a packet only
/// after the codec has no frame left to hand out for the previous one, so
/// frames leave in the order their packets arrived.
pub proof fn lemma_one_packet_at_a_time(
    stream_index: usize,
    policy: ErrorPolicy,
    event: StageEvent,
)
    ensures
        next_step(StagePhase::Running, stream_index, policy, event).1 == StageAction::Submit
            ==> event is Packet,
        next_step(StagePhase::Running, stream_index, policy, event).1 == StageAction::Poll
            ==> !(event is Accepted || event is Frame || event is Forwarded),
{
}

/// What a demux stage observed last.
#[derive(Clone, Copy, Debug)]
pub enum DemuxEvent {
    /// Cancellation was requested, or a packet queue released its writer.
    Cancelled,
    /// The container produced the next packet.
    Packet(PacketInfo),
    /// The container has no more packets.
    EndOfInput,
}

/// What a demux stage does next.
#[derive(PartialEq, Eq, Structural, Clone, Copy, Debug)]
pub enum DemuxAction {
    /// Append the packet to the selected stream's packet queue.
    Forward,
    /// Drop the packet: it belongs to a stream nobody decodes.
    Skip,
    /// Append the end-of-stream marker to the packet queue, then leave.
    SendEndMarker,
    /// Leave at once.
    Exit,
}

/// The demux decision for a pipeline that decodes stream `selected`.
pub open spec fn demux_decision(selected: usize, event: DemuxEvent) -> DemuxAction {
    match event {
        DemuxEvent::Cancelled => DemuxAction::Exit,
        DemuxEvent::Packet(p) => if p.stream_index == selected {
            DemuxAction::Forward
        } else {
            DemuxAction::Skip
        },
        DemuxEvent::EndOfInput => DemuxAction::SendEndMarker,
    }
}

/// Routes what the demuxer observed: packets of the selected stream go on,
/// others are dropped, the end of input is announced downstream, and
/// cancellation ends the stage.
pub fn demux_step(selected: usize, event: DemuxEvent) -> (r: DemuxAction)
    ensures
        r == demux_decision(selected, event),
{
    match event {
        DemuxEvent::Cancelled => DemuxAction::Exit,
        DemuxEvent::Packet(p) => if p.stream_index == selected {
            DemuxAction::Forward
        } else {
            DemuxAction::Skip
        },
        DemuxEvent::EndOfInput => DemuxAction::SendEndMarker,
    }
}

} // verus!
