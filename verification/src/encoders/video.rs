//! The loop that takes raw frames off a channel and decides which of them are encoded.

use vstd::prelude::*;
use crate::controls::{CaptureControls, ControlOp, ControlState};
use crate::ready::{Readiness, ReadyState};
use crate::encoders::audio::{AudioEncoder, AudioRequest};
use crate::types::audio_frame::RawAudioFrame;
use crate::types::error::WaycapError;
use crate::channel::{one_more, Outcome, OutputChannel};
use crate::types::video_frame::{EncodedVideoFrame, RawVideoFrame};

verus! {

pub const GOP_SIZE: u32 = 30;

/// Longest time, in milliseconds, that a loop waits or sleeps before it looks at the
/// lifecycle flags again.
pub const CONTROL_CHECK_INTERVAL_MS: u64 = 100;

/// One thing that was asked of a video encoder.
pub enum VideoRequest {
    /// `reset`
    Reset,
    /// `drop_processor`
    DropProcessor,
    /// `drain`
    Drain,
    /// `process`, with the frame that was handed over
    Process(RawVideoFrame),
    /// `thread_setup`
    ThreadSetup,
    /// `thread_teardown`
    ThreadTeardown,
}

/// A record of what was asked of a video encoder, oldest first.
pub type Asked = Ghost<Seq<VideoRequest>>;

/// The record of an encoder that nothing has been asked of.
pub fn nothing_asked() -> (record: Asked)
    ensures
        record@ == Seq::<VideoRequest>::empty(),
{
    Ghost(Seq::empty())
}

/// Base trait for video encoders. defines the output type of an encoder.
///
/// An encoder publishes what it produces on one channel for its whole life. Whatever is
/// done to it, a receiver that was handed out before goes on receiving.
pub trait VideoEncoder: Sized {
    type Output;

    /// The receiving end of the channel that the encoder publishes on, once it has one.
    /// An implementation in unverified code writes this as a function that hands out
    /// such a handle.
    spec fn output_channel(&self) -> Option<crossbeam::channel::Receiver<Self::Output>>;

    /// Everything that was asked of the encoder, oldest first. An implementation in
    /// unverified code writes this as a function that returns `nothing_asked()`.
    spec fn asked(&self) -> Asked;

    /// Recreates the codec state for a fresh encoding session.
    fn reset(&mut self) -> (outcome: Result<(), WaycapError>)
        ensures
            final(self).output_channel() == old(self).output_channel(),
            final(self).asked()@ == old(self).asked()@.push(VideoRequest::Reset),
    ;

    /// A receiving handle on the output channel.
    fn output(&mut self) -> (receiver: Option<crossbeam::channel::Receiver<Self::Output>>)
        ensures
            receiver == old(self).output_channel(),
            final(self).output_channel() == old(self).output_channel(),
            final(self).asked() == old(self).asked(),
    ;

    /// Releases the codec.
    fn drop_processor(&mut self)
        ensures
            final(self).output_channel() == old(self).output_channel(),
            final(self).asked()@ == old(self).asked()@.push(VideoRequest::DropProcessor),
    ;

    /// Flushes what the codec still holds.
    fn drain(&mut self) -> (outcome: Result<(), WaycapError>)
        ensures
            final(self).output_channel() == old(self).output_channel(),
            final(self).asked()@ == old(self).asked()@.push(VideoRequest::Drain),
    ;
}

/// Implemented for all VideoEncoders which use a normal processing thread
///
/// [`ProcessingThread::process`] will be called with each frame
pub trait ProcessingThread: VideoEncoder {
    /// Process a single raw frame. A full output channel is no error: what finds no room
    /// is dropped.
    fn process(&mut self, frame: RawVideoFrame) -> (outcome: Result<(), WaycapError>)
        ensures
            final(self).output_channel() == old(self).output_channel(),
            final(self).asked()@ == old(self).asked()@.push(VideoRequest::Process(frame)),
    ;

    /// Prepares the encoder on the thread that will call `process`.
    fn thread_setup(&mut self) -> (outcome: Result<(), WaycapError>)
        ensures
            final(self).output_channel() == old(self).output_channel(),
            final(self).asked()@ == old(self).asked()@.push(VideoRequest::ThreadSetup),
    ;

    /// Undoes `thread_setup` when the processing thread ends.
    fn thread_teardown(&mut self) -> (outcome: Result<(), WaycapError>)
        ensures
            final(self).output_channel() == old(self).output_channel(),
            final(self).asked()@ == old(self).asked()@.push(VideoRequest::ThreadTeardown),
    ;
}

/// True when `frame` is what a packet with these parts is published as: its data and key
/// flag as they are, and 0 for a timestamp that the packet lacks.
pub open spec fn is_frame_of(
    frame: EncodedVideoFrame,
    data: Vec<u8>,
    is_keyframe: bool,
    pts: Option<i64>,
    dts: Option<i64>,
) -> bool {
    &&& frame.data == data
    &&& frame.is_keyframe == is_keyframe
    &&& frame.pts == (if pts is Some { pts->0 } else { 0 })
    &&& frame.dts == (if dts is Some { dts->0 } else { 0 })
}

/// Publishes what the codec gave back for one packet. A packet without data publishes
/// nothing. A packet with data becomes a frame that is offered to the output without
/// waiting; where the output has no room, the frame is dropped and counted.
pub fn publish_packet(
    output: &mut OutputChannel<EncodedVideoFrame>,
    data: Option<Vec<u8>>,
    is_keyframe: bool,
    pts: Option<i64>,
    dts: Option<i64>,
) -> (published: Option<Outcome>)
    ensures
        final(output).ends() == old(output).ends(),
        published is Some <==> data is Some,
        published is None ==> final(output).dropped_count() == old(output).dropped_count(),
        published is None ==> final(output).taken() == old(output).taken(),
        published matches Some(outcome) ==> final(output).dropped_count() == OutputChannel::<
            EncodedVideoFrame,
        >::count_after(old(output).dropped_count(), outcome),
        published == Some(Outcome::Delivered) ==> one_more(old(output).taken(), final(output).taken()),
        published == Some(Outcome::Delivered) ==> is_frame_of(
            final(output).taken().last(),
            data->0,
            is_keyframe,
            pts,
            dts,
        ),
        published is Some && published != Some(Outcome::Delivered) ==> final(output).taken() == old(output).taken(),
{
    match data {
        Some(data) => {
            let frame = EncodedVideoFrame::from_packet(data, is_keyframe, pts, dts);
            let outcome = output.publish(frame);
            proof {
                if outcome == Outcome::Delivered {
                    assert(output.taken().drop_last() == old(output).taken());
                }
            }
            Some(outcome)
        },
        None => None,
    }
}

/// Where a processing loop stands.
#[derive(Debug, Clone, Copy, PartialEq, Eq, Structural)]
pub enum LoopState {
    /// Waiting for a frame or for the periodic tick.
    WaitingForFrame,
    /// Held back: the session is paused or a source is not ready yet.
    Gated,
    /// A frame has been handed to the encoder.
    Processing,
    /// The loop has ended and does nothing more.
    Terminated,
}

/// What the runner of a loop reports to it.
#[derive(Debug, Clone, Copy, PartialEq, Eq, Structural)]
pub enum LoopEvent {
    /// The loop starts, or the last action has been carried out.
    Wake,
    /// A raw frame with this capture timestamp came off the channel.
    Frame(i64),
    /// The wait ended without a frame.
    Tick,
    /// The channel has no sender left.
    Disconnected,
}

/// What the runner of a loop does next.
#[derive(Debug, Clone, Copy, PartialEq, Eq, Structural)]
pub enum LoopAction {
    /// Wait for a frame, for at most `CONTROL_CHECK_INTERVAL_MS`.
    AwaitFrame,
    /// Sleep for `CONTROL_CHECK_INTERVAL_MS`; a frame that was reported is discarded.
    Sleep,
    /// Hand the reported frame to the encoder.
    Process,
    /// Discard the reported frame.
    Discard,
    /// Leave the loop; a frame that was reported is discarded.
    Exit,
}

/// A processing loop as a mathematical value.
pub struct LoopModel {
    pub state: LoopState,
    /// Timestamp of the last frame that went to the encoder.
    pub last_emitted: Option<int>,
    /// Least distance between two frames that go to the encoder.
    pub frame_interval: int,
    /// False for a loop that encodes every frame.
    pub decimate: bool,
}

impl LoopModel {
    /// True when a frame with this timestamp is encoded: it is the first one, or it lies
    /// at least one frame interval after the last frame that was encoded.
    pub open spec fn due(self, timestamp: int) -> bool {
        !self.decimate || match self.last_emitted {
            None => true,
            Some(last) => timestamp - last >= self.frame_interval,
        }
    }

    /// True when the loop may not work: the session is paused or stopped, or a source is
    /// not ready.
    pub open spec fn held(ready: Readiness, controls: ControlState) -> bool {
        controls.skip_processing() || !ready.both()
    }

    /// The loop after one event.
    pub open spec fn next(self, ready: Readiness, controls: ControlState, event: LoopEvent) -> LoopModel {
        if self.state == LoopState::Terminated {
            self
        } else if controls.stopped || event == LoopEvent::Disconnected {
            LoopModel { state: LoopState::Terminated, ..self }
        } else if controls.paused || !ready.both() {
            LoopModel { state: LoopState::Gated, ..self }
        } else {
            match event {
                LoopEvent::Frame(timestamp) => if self.due(timestamp as int) {
                    LoopModel {
                        state: LoopState::Processing,
                        last_emitted: Some(timestamp as int),
                        ..self
                    }
                } else {
                    LoopModel { state: LoopState::WaitingForFrame, ..self }
                },
                LoopEvent::Tick => LoopModel {
                    state: LoopState::WaitingForFrame,
                    frame_interval: controls.frame_interval(),
                    ..self
                },
                _ => LoopModel { state: LoopState::WaitingForFrame, ..self },
            }
        }
    }

    /// What the runner is told to do on one event.
    pub open spec fn action(self, ready: Readiness, controls: ControlState, event: LoopEvent) -> LoopAction {
        if self.state == LoopState::Terminated || controls.stopped || event == LoopEvent::Disconnected {
            LoopAction::Exit
        } else if controls.paused || !ready.both() {
            LoopAction::Sleep
        } else {
            match event {
                LoopEvent::Frame(timestamp) => if self.due(timestamp as int) {
                    LoopAction::Process
                } else {
                    LoopAction::Discard
                },
                _ => LoopAction::AwaitFrame,
            }
        }
    }

    /// The loop after a run of events, under flags and latches that do not change
    /// meanwhile.
    pub open spec fn run(self, ready: Readiness, controls: ControlState, events: Seq<LoopEvent>) -> LoopModel
        decreases events.len(),
    {
        if events.len() == 0 {
            self
        } else {
            self.next(ready, controls, events[0]).run(ready, controls, events.skip(1))
        }
    }

    /// Timestamps of the frames that go to the encoder during a run of events, in the
    /// order of their arrival.
    pub open spec fn forwarded(self, ready: Readiness, controls: ControlState, events: Seq<LoopEvent>) -> Seq<int>
        decreases events.len(),
    {
        if events.len() == 0 {
            Seq::empty()
        } else {
            let rest = self.next(ready, controls, events[0]).forwarded(ready, controls, events.skip(1));
            match events[0] {
                LoopEvent::Frame(timestamp) => if self.action(ready, controls, events[0]) == LoopAction::Process {
                    seq![timestamp as int] + rest
                } else {
                    rest
                },
                _ => rest,
            }
        }
    }
}

/// Decision state of one processing loop. Its runner waits, sleeps and calls the encoder;
/// the loop says which.
#[derive(Debug)]
pub struct ProcessingLoop {
    state: LoopState,
    last_emitted: Option<i64>,
    frame_interval: u64,
    decimate: bool,
}

impl View for ProcessingLoop {
    type V = LoopModel;

    closed spec fn view(&self) -> LoopModel {
        LoopModel {
            state: self.state,
            last_emitted: match self.last_emitted {
                Some(last) => Some(last as int),
                None => None,
            },
            frame_interval: self.frame_interval as int,
            decimate: self.decimate,
        }
    }
}

impl ProcessingLoop {
    /// A loop for video: frames closer together than the frame interval of `controls` are
    /// discarded.
    pub fn new(controls: &CaptureControls) -> (lp: Self)
        ensures
            lp@ == (LoopModel {
                state: LoopState::WaitingForFrame,
                last_emitted: None,
                frame_interval: controls@.frame_interval(),
                decimate: true,
            }),
    {
        ProcessingLoop {
            state: LoopState::WaitingForFrame,
            last_emitted: None,
            frame_interval: controls.frame_interval_ns(),
            decimate: true,
        }
    }

    /// A loop for audio: every frame is encoded.
    pub fn every_frame() -> (lp: Self)
        ensures
            lp@ == (LoopModel {
                state: LoopState::WaitingForFrame,
                last_emitted: None,
                frame_interval: 0,
                decimate: false,
            }),
    {
        ProcessingLoop {
            state: LoopState::WaitingForFrame,
            last_emitted: None,
            frame_interval: 0,
            decimate: false,
        }
    }

    pub fn state(&self) -> (state: LoopState)
        ensures
            state == self@.state,
    {
        self.state
    }

    /// Timestamp of the last frame that went to the encoder.
    pub fn last_emitted(&self) -> (last: Option<i64>)
        ensures
            last is Some <==> self@.last_emitted is Some,
            last matches Some(t) ==> self@.last_emitted == Some(t as int),
    {
        self.last_emitted
    }

    pub fn frame_interval(&self) -> (interval: u64)
        ensures
            interval == self@.frame_interval,
    {
        self.frame_interval
    }

    fn is_due(&self, timestamp: i64) -> (due: bool)
        ensures
            due == self@.due(timestamp as int),
    {
        if !self.decimate {
            return true;
        }
        match self.last_emitted {
            None => true,
            Some(last) => (timestamp as i128) - (last as i128) >= self.frame_interval as i128,
        }
    }

    /// Takes a frame that came off the channel and, where the loop decides so, hands it
    /// to the encoder, once. The encoder is touched by no other decision. An error of the
    /// encoder ends nothing: it is handed back for the record and the loop goes on.
    pub fn on_frame<V: ProcessingThread>(
        &mut self,
        ready: &ReadyState,
        controls: &CaptureControls,
        encoder: &mut V,
        frame: RawVideoFrame,
    ) -> (outcome: (LoopAction, Option<WaycapError>))
        ensures
            final(self)@ == old(self)@.next(ready@, controls@, LoopEvent::Frame(frame.timestamp)),
            outcome.0 == old(self)@.action(ready@, controls@, LoopEvent::Frame(frame.timestamp)),
            outcome.0 != LoopAction::Process ==> *final(encoder) == *old(encoder) && outcome.1 is None,
            outcome.0 == LoopAction::Process ==> final(encoder).asked()@ == old(encoder).asked()@.push(
                VideoRequest::Process(frame),
            ),
            final(encoder).output_channel() == old(encoder).output_channel(),
    {
        let action = self.step(ready, controls, LoopEvent::Frame(frame.timestamp));
        match action {
            LoopAction::Process => match encoder.process(frame) {
                Ok(()) => (action, None),
                Err(e) => (action, Some(e)),
            },
            _ => (action, None),
        }
    }

    /// Takes a chunk of audio that came off the channel and, where the loop decides so,
    /// hands it to the encoder, once. The encoder is touched by no other decision. An
    /// error of the encoder ends nothing: it is handed back for the record and the loop
    /// goes on.
    pub fn on_chunk<A: AudioEncoder>(
        &mut self,
        ready: &ReadyState,
        controls: &CaptureControls,
        encoder: &mut A,
        chunk: RawAudioFrame,
    ) -> (outcome: (LoopAction, Option<WaycapError>))
        ensures
            final(self)@ == old(self)@.next(ready@, controls@, LoopEvent::Frame(chunk.timestamp)),
            outcome.0 == old(self)@.action(ready@, controls@, LoopEvent::Frame(chunk.timestamp)),
            outcome.0 != LoopAction::Process ==> *final(encoder) == *old(encoder) && outcome.1 is None,
            outcome.0 == LoopAction::Process ==> final(encoder).asked()@ == old(encoder).asked()@.push(
                AudioRequest::Process(chunk),
            ),
            final(encoder).output_channel() == old(encoder).output_channel(),
    {
        let action = self.step(ready, controls, LoopEvent::Frame(chunk.timestamp));
        match action {
            LoopAction::Process => match encoder.process(chunk) {
                Ok(()) => (action, None),
                Err(e) => (action, Some(e)),
            },
            _ => (action, None),
        }
    }

    /// Takes one event and says what the runner does next.
    pub fn step(&mut self, ready: &ReadyState, controls: &CaptureControls, event: LoopEvent) -> (action: LoopAction)
        ensures
            final(self)@ == old(self)@.next(ready@, controls@, event),
            action == old(self)@.action(ready@, controls@, event),
    {
        if self.state == LoopState::Terminated {
            return LoopAction::Exit;
        }
        if controls.is_stopped() || event == LoopEvent::Disconnected {
            self.state = LoopState::Terminated;
            return LoopAction::Exit;
        }
        if controls.is_paused() || !ready.both_ready() {
            self.state = LoopState::Gated;
            return LoopAction::Sleep;
        }
        match event {
            LoopEvent::Frame(timestamp) => {
                if self.is_due(timestamp) {
                    self.state = LoopState::Processing;
                    self.last_emitted = Some(timestamp);
                    LoopAction::Process
                } else {
                    self.state = LoopState::WaitingForFrame;
                    LoopAction::Discard
                }
            },
            LoopEvent::Tick => {
                self.state = LoopState::WaitingForFrame;
                self.frame_interval = controls.frame_interval_ns();
                LoopAction::AwaitFrame
            },
            _ => {
                self.state = LoopState::WaitingForFrame;
                LoopAction::AwaitFrame
            },
        }
    }
}

/// While the session is paused or stopped, or a source is not ready, no frame goes to the
/// encoder, however many arrive, and none of them counts as encoded afterwards.
pub proof fn held_loop_forwards_nothing(lp: LoopModel, ready: Readiness, controls: ControlState, events: Seq<LoopEvent>)
    requires
        LoopModel::held(ready, controls),
    ensures
        lp.forwarded(ready, controls, events) == Seq::<int>::empty(),
        lp.run(ready, controls, events).last_emitted == lp.last_emitted,
        lp.run(ready, controls, events).frame_interval == lp.frame_interval,
        lp.run(ready, controls, events).decimate == lp.decimate,
    decreases events.len(),
{
    if events.len() > 0 {
        held_loop_forwards_nothing(lp.next(ready, controls, events[0]), ready, controls, events.skip(1));
    }
}

/// Which frames go to the encoder depends on the loop only through the last encoded
/// timestamp, the frame interval, whether it decimates and whether it has ended.
pub proof fn forwarded_depends_on_decimation_state(a: LoopModel, b: LoopModel, ready: Readiness, controls: ControlState, events: Seq<LoopEvent>)
    requires
        a.last_emitted == b.last_emitted,
        a.frame_interval == b.frame_interval,
        a.decimate == b.decimate,
        (a.state == LoopState::Terminated) == (b.state == LoopState::Terminated),
    ensures
        a.forwarded(ready, controls, events) == b.forwarded(ready, controls, events),
    decreases events.len(),
{
    if events.len() > 0 {
        forwarded_depends_on_decimation_state(
            a.next(ready, controls, events[0]),
            b.next(ready, controls, events[0]),
            ready,
            controls,
            events.skip(1),
        );
    }
}

/// Frames that arrive while the session is paused are lost: none of them is encoded
/// during the pause, and after the session resumes the loop encodes exactly the frames
/// that it would have encoded had they never arrived, unless the channel was
/// disconnected meanwhile and the loop has ended.
pub proof fn frames_during_pause_are_lost(lp: LoopModel, ready: Readiness, controls: ControlState, during: Seq<LoopEvent>, after: Seq<LoopEvent>)
    requires
        controls.paused,
    ensures
        lp.forwarded(ready, controls, during) == Seq::<int>::empty(),
        (lp.run(ready, controls, during).state == LoopState::Terminated) == (lp.state
            == LoopState::Terminated) ==> lp.run(ready, controls, during).forwarded(
            ready,
            controls.apply(ControlOp::Resume),
            after,
        ) == lp.forwarded(ready, controls.apply(ControlOp::Resume), after),
{
    held_loop_forwards_nothing(lp, ready, controls, during);
    let later = lp.run(ready, controls, during);
    if (later.state == LoopState::Terminated) == (lp.state == LoopState::Terminated) {
        forwarded_depends_on_decimation_state(later, lp, ready, controls.apply(ControlOp::Resume), after);
    }
}

/// True when each element of `timestamps` lies at least `interval` after the one before.
pub open spec fn spaced(timestamps: Seq<int>, interval: int) -> bool {
    forall|i: int| 0 <= i < timestamps.len() - 1 ==> #[trigger] timestamps[i + 1] - timestamps[i] >= interval
}

/// Frame-rate decimation: under a frame rate that does not change, any two frames that a
/// decimating loop encodes one after the other lie at least one frame interval apart, and
/// the first of them lies as far after the frame encoded last before the run.
pub proof fn forwarded_frames_are_spaced(lp: LoopModel, ready: Readiness, controls: ControlState, events: Seq<LoopEvent>)
    requires
        lp.decimate,
        lp.frame_interval == controls.frame_interval(),
    ensures
        spaced(lp.forwarded(ready, controls, events), lp.frame_interval),
        lp.last_emitted is Some && lp.forwarded(ready, controls, events).len() > 0 ==> lp.forwarded(
            ready,
            controls,
            events,
        )[0] - lp.last_emitted->0 >= lp.frame_interval,
    decreases events.len(),
{
    if events.len() > 0 {
        let following = lp.next(ready, controls, events[0]);
        forwarded_frames_are_spaced(following, ready, controls, events.skip(1));
        let rest = following.forwarded(ready, controls, events.skip(1));
        let all = lp.forwarded(ready, controls, events);
        if all != rest {
            let first = all[0];
            assert(all == seq![first] + rest);
            assert forall|i: int| 0 <= i < all.len() - 1 implies #[trigger] all[i + 1] - all[i] >= lp.frame_interval by {
                if i > 0 {
                    assert(rest[(i - 1) + 1] - rest[i - 1] >= lp.frame_interval);
                }
            }
        }
    }
}

/// A loop that has ended hands no frame to the encoder and stays ended.
pub proof fn terminated_loop_stays_terminated(lp: LoopModel, ready: Readiness, controls: ControlState, events: Seq<LoopEvent>)
    requires
        lp.state == LoopState::Terminated,
    ensures
        lp.forwarded(ready, controls, events) == Seq::<int>::empty(),
        lp.run(ready, controls, events) == lp,
    decreases events.len(),
{
    if events.len() > 0 {
        terminated_loop_stays_terminated(lp.next(ready, controls, events[0]), ready, controls, events.skip(1));
    }
}

} // verus!
