//! A capture session as a mathematical state machine: its states, the events it takes,
//! the commands it answers with, and what holds of every run.

use vstd::prelude::*;
use crate::controls::{ControlOp, ControlState};
use crate::ready::Readiness;
use crate::types::config::{AudioEncoder, QualityPreset, VideoEncoder};
use crate::types::video_frame::Resolution;

verus! {

/// Longest time, in milliseconds, that construction waits for the video source to
/// negotiate a resolution.
pub const NEGOTIATION_TIMEOUT_MS: u64 = 5000;

/// Why construction was given up.
#[derive(Debug, Clone, Copy, PartialEq, Eq, Structural)]
pub enum FailureCause {
    /// The video source negotiated no resolution in time.
    NegotiationTimeout,
    /// A step that the orchestrator had asked for failed.
    StepFailed,
}

/// How far a session has come.
#[derive(Debug, Clone, Copy, PartialEq, Eq, Structural)]
pub enum CapturePhase {
    /// Flags and latches exist; nothing has been started.
    Created,
    /// The video source has been asked for.
    StartingVideo,
    /// The video source runs; its resolution is awaited.
    Negotiating,
    /// The video encoder has been asked for.
    BuildingVideoEncoder,
    /// The audio source has been asked for.
    StartingAudio,
    /// The audio encoder has been asked for.
    BuildingAudioEncoder,
    /// Everything is in place but a source that does not deliver yet.
    AwaitingReadiness,
    /// The processing loops run.
    Running,
    /// Construction was given up and what had been started was taken down.
    Failed(FailureCause),
    /// The session was closed.
    Closed,
}

/// What happened, as told to the orchestrator.
#[derive(Debug, Clone, Copy, PartialEq, Eq, Structural)]
pub enum CaptureEvent {
    /// The session is to be brought up.
    Begin,
    /// The video source thread runs.
    VideoSourceStarted,
    /// The video source negotiated this resolution.
    ResolutionNegotiated(Resolution),
    /// No resolution has arrived after this many milliseconds of waiting.
    ResolutionPending(u64),
    /// The video encoder exists.
    VideoEncoderCreated,
    /// The audio source thread runs.
    AudioSourceStarted,
    /// The audio encoder exists.
    AudioEncoderCreated,
    /// The step asked for last could not be done.
    StepFailed,
    /// The video stream changed state; `true` when it now delivers frames.
    VideoStreaming(bool),
    /// The audio stream changed state; `true` when it now delivers frames.
    AudioStreaming(bool),
    /// The caller lets frames through.
    Start,
    /// The caller holds frames back.
    Pause,
    /// The caller holds frames back and has the encoders flushed.
    Finish,
    /// The caller starts a fresh encoding session on the same threads and channels.
    Reset,
    /// The caller stops all processing for good, without taking anything down.
    Stop,
    /// The caller asks for this many frames per second; 0 is not taken over.
    SetTargetFps(u64),
    /// The caller ends the session.
    Close,
}

/// What the caller of the orchestrator has to do, in the order given.
#[derive(Debug, Clone, Copy, PartialEq, Eq)]
pub enum CaptureCommand {
    /// Start the video source thread, with the cursor embedded or hidden.
    SpawnVideoSource { include_cursor: bool },
    /// Wait a bounded time for the negotiated resolution and report what came.
    AwaitResolution,
    /// Create the video encoder: the backend named, or the one that fits the GPU.
    CreateVideoEncoder { choice: Option<VideoEncoder>, resolution: Resolution, quality: QualityPreset },
    /// Start the audio source thread.
    SpawnAudioSource,
    /// Create the audio encoder.
    CreateAudioEncoder(AudioEncoder),
    /// Wait for the sources to report that they stream.
    AwaitReadiness,
    /// Start the loop that feeds the video encoder.
    SpawnVideoProcessing,
    /// Start the loop that feeds the audio encoder.
    SpawnAudioProcessing,
    /// Flush the video encoder.
    DrainVideoEncoder,
    /// Flush the audio encoder.
    DrainAudioEncoder,
    /// Recreate the video codec state; its output channel stays.
    ResetVideoEncoder,
    /// Recreate the audio codec state; its output channel stays.
    ResetAudioEncoder,
    /// Tell the video source to end.
    SignalVideoTermination,
    /// Tell the audio source to end.
    SignalAudioTermination,
    /// Join every worker thread; this many are running.
    JoinWorkers(u8),
    /// Release the video encoder.
    DropVideoEncoder,
    /// Release the audio encoder.
    DropAudioEncoder,
}

/// `command` if `wanted`, else nothing.
pub open spec fn only_if(wanted: bool, command: CaptureCommand) -> Seq<CaptureCommand> {
    if wanted {
        seq![command]
    } else {
        Seq::empty()
    }
}

/// What is left of the commands of a finish or a reset once the first of them has been
/// carried out: the others if it succeeded, none if it failed.
pub open spec fn remaining(commands: Seq<CaptureCommand>, succeeded: bool) -> Seq<CaptureCommand> {
    if succeeded && commands.len() > 0 {
        commands.skip(1)
    } else {
        Seq::empty()
    }
}

/// The commands of a finish or a reset that are carried out when they come out as
/// `outcomes` say, each `true` for a success: all up to the first that fails, that one
/// included.
pub open spec fn carried_out(commands: Seq<CaptureCommand>, outcomes: Seq<bool>) -> Seq<CaptureCommand>
    decreases commands.len(),
{
    if commands.len() == 0 || outcomes.len() == 0 {
        Seq::empty()
    } else {
        seq![commands[0]] + carried_out(remaining(commands, outcomes[0]), outcomes.skip(1))
    }
}

/// After a flush or a reset that failed, nothing more is carried out: of two commands
/// whose first fails, the second is skipped.
pub proof fn failed_step_ends_the_run(first: CaptureCommand, second: CaptureCommand, later: bool)
    ensures
        carried_out(seq![first, second], seq![false, later]) == seq![first],
        carried_out(seq![first, second], seq![true, later]) == seq![first, second],
{
    let both = seq![first, second];
    assert(remaining(both, false) == Seq::<CaptureCommand>::empty());
    assert(remaining(both, true) == seq![second]);
    assert(seq![true, later].skip(1) == seq![later]);
    assert(seq![false, later].skip(1) == seq![later]);
    assert(carried_out(Seq::<CaptureCommand>::empty(), seq![later]) == Seq::<CaptureCommand>::empty());
    assert(remaining(seq![second], later).len() == 0);
    assert(carried_out(remaining(seq![second], later), seq![later].skip(1)) == Seq::<CaptureCommand>::empty());
    assert(carried_out(seq![second], seq![later]) == seq![second]);
    assert(carried_out(both, seq![true, later]) == seq![first] + seq![second]);
}

/// A capture session as a mathematical value.
pub struct CaptureModel {
    pub phase: CapturePhase,
    pub controls: ControlState,
    pub ready: Readiness,
    pub include_cursor: bool,
    pub include_audio: bool,
    pub video_choice: Option<VideoEncoder>,
    pub audio_choice: AudioEncoder,
    pub quality: QualityPreset,
    /// True when the caller brought the video encoder along.
    pub custom_encoder: bool,
    pub resolution: Option<Resolution>,
    /// The video source thread runs.
    pub video_source: bool,
    /// The audio source thread runs.
    pub audio_source: bool,
    /// The video processing loop runs.
    pub video_loop: bool,
    /// The audio processing loop runs.
    pub audio_loop: bool,
    /// The video encoder exists.
    pub video_encoder: bool,
    /// The audio encoder exists.
    pub audio_encoder: bool,
}

impl CaptureModel {
    /// Number of worker threads that run.
    pub open spec fn workers(self) -> nat {
        (if self.video_source { 1nat } else { 0nat }) + (if self.audio_source { 1nat } else { 0nat }) + (if self.video_loop {
            1nat
        } else {
            0nat
        }) + (if self.audio_loop { 1nat } else { 0nat })
    }

    /// True when no thread runs and no encoder exists.
    pub open spec fn idle(self) -> bool {
        !self.video_source && !self.audio_source && !self.video_loop && !self.audio_loop
            && !self.video_encoder && !self.audio_encoder
    }

    /// The session with every thread ended and every encoder released.
    pub open spec fn released(self) -> CaptureModel {
        CaptureModel {
            video_source: false,
            audio_source: false,
            video_loop: false,
            audio_loop: false,
            video_encoder: false,
            audio_encoder: false,
            ..self
        }
    }

    /// The commands that flush the encoders that exist.
    pub open spec fn drains(self) -> Seq<CaptureCommand> {
        only_if(self.video_encoder, CaptureCommand::DrainVideoEncoder) + only_if(
            self.audio_encoder,
            CaptureCommand::DrainAudioEncoder,
        )
    }

    /// The commands that recreate the codec state of the encoders that exist.
    pub open spec fn resets(self) -> Seq<CaptureCommand> {
        only_if(self.video_encoder, CaptureCommand::ResetVideoEncoder) + only_if(
            self.audio_encoder,
            CaptureCommand::ResetAudioEncoder,
        )
    }

    /// The commands that take down what has been started: every source is told to end,
    /// every thread is joined, then every encoder is released.
    pub open spec fn teardown(self) -> Seq<CaptureCommand> {
        only_if(self.video_source, CaptureCommand::SignalVideoTermination) + only_if(
            self.audio_source,
            CaptureCommand::SignalAudioTermination,
        ) + only_if(self.workers() > 0, CaptureCommand::JoinWorkers(self.workers() as u8)) + only_if(
            self.video_encoder,
            CaptureCommand::DropVideoEncoder,
        ) + only_if(self.audio_encoder, CaptureCommand::DropAudioEncoder)
    }

    /// The session after construction was given up.
    pub open spec fn failed(self, cause: FailureCause) -> CaptureModel {
        CaptureModel {
            phase: CapturePhase::Failed(cause),
            controls: self.controls.apply(ControlOp::Stop),
            ..self.released()
        }
    }

    /// The session after the processing loops were started.
    pub open spec fn processing(self) -> CaptureModel {
        CaptureModel {
            phase: CapturePhase::Running,
            video_loop: true,
            audio_loop: self.include_audio,
            ..self
        }
    }

    /// The commands that start the processing loops.
    pub open spec fn spawn_loops(self) -> Seq<CaptureCommand> {
        only_if(self.include_audio, CaptureCommand::SpawnAudioProcessing).push(CaptureCommand::SpawnVideoProcessing)
    }

    /// The session once sources and encoders are in place: running if both sources
    /// deliver, else waiting for them.
    pub open spec fn settled(self) -> CaptureModel {
        if self.ready.both() {
            self.processing()
        } else {
            CaptureModel { phase: CapturePhase::AwaitingReadiness, ..self }
        }
    }

    /// The commands issued once sources and encoders are in place.
    pub open spec fn settle(self) -> Seq<CaptureCommand> {
        if self.ready.both() {
            self.spawn_loops()
        } else {
            seq![CaptureCommand::AwaitReadiness]
        }
    }

    /// The session after new latches were recorded.
    pub open spec fn with_ready(self, ready: Readiness) -> CaptureModel {
        let noted = CaptureModel { ready, ..self };
        if self.phase == CapturePhase::AwaitingReadiness && ready.both() {
            noted.processing()
        } else {
            noted
        }
    }

    /// The commands issued when new latches are recorded.
    pub open spec fn on_ready(self, ready: Readiness) -> Seq<CaptureCommand> {
        if self.phase == CapturePhase::AwaitingReadiness && ready.both() {
            self.spawn_loops()
        } else {
            Seq::empty()
        }
    }

    /// True when construction is under way and a failed step ends it.
    pub open spec fn constructing(self) -> bool {
        self.phase == CapturePhase::StartingVideo || self.phase == CapturePhase::Negotiating || self.phase
            == CapturePhase::BuildingVideoEncoder || self.phase == CapturePhase::StartingAudio || self.phase
            == CapturePhase::BuildingAudioEncoder
    }

    /// The session after it was told to begin.
    pub open spec fn after_begin(self) -> CaptureModel {
        if self.phase == CapturePhase::Created {
            CaptureModel { phase: CapturePhase::StartingVideo, ..self }
        } else {
            self
        }
    }

    /// What beginning calls for.
    pub open spec fn on_begin(self) -> Seq<CaptureCommand> {
        only_if(
            self.phase == CapturePhase::Created,
            CaptureCommand::SpawnVideoSource { include_cursor: self.include_cursor },
        )
    }

    /// The session after the video source thread came up.
    pub open spec fn after_video_source_started(self) -> CaptureModel {
        if self.phase == CapturePhase::StartingVideo {
            CaptureModel { phase: CapturePhase::Negotiating, video_source: true, ..self }
        } else {
            self
        }
    }

    /// What a running video source calls for.
    pub open spec fn on_video_source_started(self) -> Seq<CaptureCommand> {
        only_if(self.phase == CapturePhase::StartingVideo, CaptureCommand::AwaitResolution)
    }

    /// The session after the resolution was negotiated.
    pub open spec fn after_resolution(self, resolution: Resolution) -> CaptureModel {
        if self.phase == CapturePhase::Negotiating {
            let known = CaptureModel { resolution: Some(resolution), ..self };
            if self.custom_encoder {
                known.settled()
            } else {
                CaptureModel { phase: CapturePhase::BuildingVideoEncoder, ..known }
            }
        } else {
            self
        }
    }

    /// What a negotiated resolution calls for.
    pub open spec fn on_resolution(self, resolution: Resolution) -> Seq<CaptureCommand> {
        if self.phase == CapturePhase::Negotiating {
            if self.custom_encoder {
                (CaptureModel { resolution: Some(resolution), ..self }).settle()
            } else {
                seq![
                    CaptureCommand::CreateVideoEncoder {
                        choice: self.video_choice,
                        resolution,
                        quality: self.quality,
                    },
                ]
            }
        } else {
            Seq::empty()
        }
    }

    /// The session after a wait for the resolution ended without one.
    pub open spec fn after_resolution_pending(self, waited_ms: u64) -> CaptureModel {
        if self.phase == CapturePhase::Negotiating && waited_ms > NEGOTIATION_TIMEOUT_MS {
            self.failed(FailureCause::NegotiationTimeout)
        } else {
            self
        }
    }

    /// What a wait without a resolution calls for: another wait, or the end of
    /// construction once the time is up.
    pub open spec fn on_resolution_pending(self, waited_ms: u64) -> Seq<CaptureCommand> {
        if self.phase == CapturePhase::Negotiating {
            if waited_ms > NEGOTIATION_TIMEOUT_MS {
                self.teardown()
            } else {
                seq![CaptureCommand::AwaitResolution]
            }
        } else {
            Seq::empty()
        }
    }

    /// The session after the video encoder was created.
    pub open spec fn after_video_encoder_created(self) -> CaptureModel {
        if self.phase == CapturePhase::BuildingVideoEncoder {
            let built = CaptureModel { video_encoder: true, ..self };
            if self.include_audio {
                CaptureModel { phase: CapturePhase::StartingAudio, ..built }
            } else {
                built.settled()
            }
        } else {
            self
        }
    }

    /// What a new video encoder calls for.
    pub open spec fn on_video_encoder_created(self) -> Seq<CaptureCommand> {
        if self.phase == CapturePhase::BuildingVideoEncoder {
            if self.include_audio {
                seq![CaptureCommand::SpawnAudioSource]
            } else {
                (CaptureModel { video_encoder: true, ..self }).settle()
            }
        } else {
            Seq::empty()
        }
    }

    /// The session after the audio source thread came up.
    pub open spec fn after_audio_source_started(self) -> CaptureModel {
        if self.phase == CapturePhase::StartingAudio {
            CaptureModel { phase: CapturePhase::BuildingAudioEncoder, audio_source: true, ..self }
        } else {
            self
        }
    }

    /// What a running audio source calls for.
    pub open spec fn on_audio_source_started(self) -> Seq<CaptureCommand> {
        only_if(self.phase == CapturePhase::StartingAudio, CaptureCommand::CreateAudioEncoder(self.audio_choice))
    }

    /// The session after the audio encoder was created.
    pub open spec fn after_audio_encoder_created(self) -> CaptureModel {
        if self.phase == CapturePhase::BuildingAudioEncoder {
            (CaptureModel { audio_encoder: true, ..self }).settled()
        } else {
            self
        }
    }

    /// What a new audio encoder calls for.
    pub open spec fn on_audio_encoder_created(self) -> Seq<CaptureCommand> {
        if self.phase == CapturePhase::BuildingAudioEncoder {
            (CaptureModel { audio_encoder: true, ..self }).settle()
        } else {
            Seq::empty()
        }
    }

    /// The session after a step failed: construction ends, anything else goes on.
    pub open spec fn after_step_failed(self) -> CaptureModel {
        if self.constructing() {
            self.failed(FailureCause::StepFailed)
        } else {
            self
        }
    }

    /// What a failed step calls for.
    pub open spec fn on_step_failed(self) -> Seq<CaptureCommand> {
        if self.constructing() {
            self.teardown()
        } else {
            Seq::empty()
        }
    }

    /// The session after the caller ended it.
    pub open spec fn after_close(self) -> CaptureModel {
        if self.phase == CapturePhase::Closed {
            self
        } else {
            CaptureModel {
                phase: CapturePhase::Closed,
                controls: self.controls.apply(ControlOp::Pause).apply(ControlOp::Stop),
                ..self.released()
            }
        }
    }

    /// What ending the session calls for: the encoders are flushed, then everything is
    /// taken down. A session that is closed already calls for nothing.
    pub open spec fn on_close(self) -> Seq<CaptureCommand> {
        if self.phase == CapturePhase::Closed {
            Seq::empty()
        } else {
            self.drains() + self.teardown()
        }
    }

    /// The session with other lifecycle flags.
    pub open spec fn with_controls(self, controls: ControlState) -> CaptureModel {
        CaptureModel { controls, ..self }
    }

    /// The session after one event.
    pub open spec fn next(self, event: CaptureEvent) -> CaptureModel {
        match event {
            CaptureEvent::Begin => self.after_begin(),
            CaptureEvent::VideoSourceStarted => self.after_video_source_started(),
            CaptureEvent::ResolutionNegotiated(resolution) => self.after_resolution(resolution),
            CaptureEvent::ResolutionPending(waited_ms) => self.after_resolution_pending(waited_ms),
            CaptureEvent::VideoEncoderCreated => self.after_video_encoder_created(),
            CaptureEvent::AudioSourceStarted => self.after_audio_source_started(),
            CaptureEvent::AudioEncoderCreated => self.after_audio_encoder_created(),
            CaptureEvent::StepFailed => self.after_step_failed(),
            CaptureEvent::VideoStreaming(streaming) => self.with_ready(self.ready.with_video(streaming)),
            CaptureEvent::AudioStreaming(streaming) => self.with_ready(self.ready.with_audio(streaming)),
            CaptureEvent::Start => self.with_controls(self.controls.apply(ControlOp::Resume)),
            CaptureEvent::Pause => self.with_controls(self.controls.apply(ControlOp::Pause)),
            CaptureEvent::Finish => self.with_controls(self.controls.apply(ControlOp::Pause)),
            CaptureEvent::Reset => self,
            CaptureEvent::Stop => self.with_controls(self.controls.apply(ControlOp::Stop)),
            CaptureEvent::SetTargetFps(fps) => self.with_controls(self.controls.apply(ControlOp::SetTargetFps(fps))),
            CaptureEvent::Close => self.after_close(),
        }
    }

    /// What the caller is told to do on one event.
    pub open spec fn commands(self, event: CaptureEvent) -> Seq<CaptureCommand> {
        match event {
            CaptureEvent::Begin => self.on_begin(),
            CaptureEvent::VideoSourceStarted => self.on_video_source_started(),
            CaptureEvent::ResolutionNegotiated(resolution) => self.on_resolution(resolution),
            CaptureEvent::ResolutionPending(waited_ms) => self.on_resolution_pending(waited_ms),
            CaptureEvent::VideoEncoderCreated => self.on_video_encoder_created(),
            CaptureEvent::AudioSourceStarted => self.on_audio_source_started(),
            CaptureEvent::AudioEncoderCreated => self.on_audio_encoder_created(),
            CaptureEvent::StepFailed => self.on_step_failed(),
            CaptureEvent::VideoStreaming(streaming) => self.on_ready(self.ready.with_video(streaming)),
            CaptureEvent::AudioStreaming(streaming) => self.on_ready(self.ready.with_audio(streaming)),
            CaptureEvent::Finish => self.drains(),
            CaptureEvent::Reset => self.resets(),
            CaptureEvent::Close => self.on_close(),
            _ => Seq::empty(),
        }
    }

    /// The session after a run of events.
    pub open spec fn run(self, events: Seq<CaptureEvent>) -> CaptureModel
        decreases events.len(),
    {
        if events.len() == 0 {
            self
        } else {
            self.next(events[0]).run(events.skip(1))
        }
    }

    /// Every command issued during a run of events, in order.
    pub open spec fn issued(self, events: Seq<CaptureEvent>) -> Seq<CaptureCommand>
        decreases events.len(),
    {
        if events.len() == 0 {
            Seq::empty()
        } else {
            self.commands(events[0]) + self.next(events[0]).issued(events.skip(1))
        }
    }

    /// What holds of every session from its creation on: a processing loop runs only if
    /// both sources deliver, the audio side exists only where audio was asked for, and a
    /// session that failed or was closed is stopped and has nothing left running.
    pub open spec fn consistent(self) -> bool {
        &&& self.video_loop || self.audio_loop || self.phase == CapturePhase::Running ==> self.ready.both()
        &&& self.audio_source || self.audio_loop || self.audio_encoder || self.phase == CapturePhase::StartingAudio
            || self.phase == CapturePhase::BuildingAudioEncoder ==> self.include_audio
        &&& self.phase is Failed || self.phase == CapturePhase::Closed ==> self.idle() && self.controls.stopped
        &&& !self.include_audio ==> self.ready.audio
        &&& self.custom_encoder ==> !self.include_audio
    }
}

/// True for the commands that start a processing loop.
pub open spec fn starts_processing(command: CaptureCommand) -> bool {
    command == CaptureCommand::SpawnVideoProcessing || command == CaptureCommand::SpawnAudioProcessing
}

/// True for the commands that start a part of the audio side.
pub open spec fn starts_audio(command: CaptureCommand) -> bool {
    command == CaptureCommand::SpawnAudioSource || command is CreateAudioEncoder || command
        == CaptureCommand::SpawnAudioProcessing
}

/// A session that has just been created is consistent.
pub proof fn created_is_consistent(
    video_choice: Option<VideoEncoder>,
    audio_choice: AudioEncoder,
    quality: QualityPreset,
    include_cursor: bool,
    include_audio: bool,
    target_fps: u64,
)
    ensures
        created(video_choice, audio_choice, quality, include_cursor, include_audio, target_fps).consistent(),
        created_with_encoder(include_cursor, target_fps).consistent(),
{
}

/// No event makes a consistent session inconsistent.
pub proof fn next_keeps_consistent(session: CaptureModel, event: CaptureEvent)
    requires
        session.consistent(),
    ensures
        session.next(event).consistent(),
{
}

/// No run of events makes a consistent session inconsistent. In particular, whatever
/// happens, a processing loop runs only while both sources deliver.
pub proof fn run_keeps_consistent(session: CaptureModel, events: Seq<CaptureEvent>)
    requires
        session.consistent(),
    ensures
        session.run(events).consistent(),
    decreases events.len(),
{
    if events.len() > 0 {
        next_keeps_consistent(session, events[0]);
        run_keeps_consistent(session.next(events[0]), events.skip(1));
    }
}

/// True when no command of `commands` starts a processing loop.
pub open spec fn starts_no_loop(commands: Seq<CaptureCommand>) -> bool {
    forall|i: int| 0 <= i < commands.len() ==> !starts_processing(#[trigger] commands[i])
}

/// True when no command of `commands` starts a part of the audio side.
pub open spec fn starts_no_audio(commands: Seq<CaptureCommand>) -> bool {
    forall|i: int| 0 <= i < commands.len() ==> !starts_audio(#[trigger] commands[i])
}

proof fn starts_no_loop_joined(first: Seq<CaptureCommand>, rest: Seq<CaptureCommand>)
    requires
        starts_no_loop(first),
        starts_no_loop(rest),
    ensures
        starts_no_loop(first + rest),
{
    assert forall|i: int| 0 <= i < (first + rest).len() implies !starts_processing(#[trigger] (first + rest)[i]) by {
        if i < first.len() {
            assert((first + rest)[i] == first[i]);
        } else {
            assert((first + rest)[i] == rest[i - first.len()]);
        }
    }
}

proof fn starts_no_audio_joined(first: Seq<CaptureCommand>, rest: Seq<CaptureCommand>)
    requires
        starts_no_audio(first),
        starts_no_audio(rest),
    ensures
        starts_no_audio(first + rest),
{
    assert forall|i: int| 0 <= i < (first + rest).len() implies !starts_audio(#[trigger] (first + rest)[i]) by {
        if i < first.len() {
            assert((first + rest)[i] == first[i]);
        } else {
            assert((first + rest)[i] == rest[i - first.len()]);
        }
    }
}

proof fn housekeeping_starts_nothing(session: CaptureModel)
    ensures
        starts_no_loop(session.drains()),
        starts_no_loop(session.resets()),
        starts_no_loop(session.teardown()),
        starts_no_audio(session.drains()),
        starts_no_audio(session.resets()),
        starts_no_audio(session.teardown()),
        !session.include_audio ==> starts_no_audio(session.spawn_loops()),
        !session.include_audio ==> starts_no_audio(session.settle()),
        !session.ready.both() ==> starts_no_loop(session.settle()),
{
    let signal_video = only_if(session.video_source, CaptureCommand::SignalVideoTermination);
    let signal_audio = only_if(session.audio_source, CaptureCommand::SignalAudioTermination);
    let join = only_if(session.workers() > 0, CaptureCommand::JoinWorkers(session.workers() as u8));
    let drop_video = only_if(session.video_encoder, CaptureCommand::DropVideoEncoder);
    let drop_audio = only_if(session.audio_encoder, CaptureCommand::DropAudioEncoder);
    starts_no_loop_joined(signal_video, signal_audio);
    starts_no_loop_joined(signal_video + signal_audio, join);
    starts_no_loop_joined(signal_video + signal_audio + join, drop_video);
    starts_no_loop_joined(signal_video + signal_audio + join + drop_video, drop_audio);
    starts_no_audio_joined(signal_video, signal_audio);
    starts_no_audio_joined(signal_video + signal_audio, join);
    starts_no_audio_joined(signal_video + signal_audio + join, drop_video);
    starts_no_audio_joined(signal_video + signal_audio + join + drop_video, drop_audio);
}

proof fn settling_keeps_latches(session: CaptureModel)
    ensures
        session.settled().ready == session.ready,
        session.processing().ready == session.ready,
        session.released().ready == session.ready,
        session.failed(FailureCause::StepFailed).ready == session.ready,
        session.failed(FailureCause::NegotiationTimeout).ready == session.ready,
{
}

proof fn latches_kept_while_negotiating(session: CaptureModel, event: CaptureEvent)
    requires
        event is ResolutionNegotiated || event is ResolutionPending,
    ensures
        session.next(event).ready == session.ready,
{
    settling_keeps_latches(session);
    if let CaptureEvent::ResolutionNegotiated(resolution) = event {
        settling_keeps_latches(CaptureModel { resolution: Some(resolution), ..session });
    }
}

proof fn latches_kept_while_building(session: CaptureModel, event: CaptureEvent)
    requires
        event == CaptureEvent::VideoEncoderCreated || event == CaptureEvent::AudioEncoderCreated || event
            == CaptureEvent::StepFailed,
    ensures
        session.next(event).ready == session.ready,
{
    settling_keeps_latches(session);
    settling_keeps_latches(CaptureModel { video_encoder: true, ..session });
    settling_keeps_latches(CaptureModel { audio_encoder: true, ..session });
}

proof fn latches_kept_by_the_caller(session: CaptureModel, event: CaptureEvent)
    requires
        event == CaptureEvent::Begin || event == CaptureEvent::VideoSourceStarted || event
            == CaptureEvent::AudioSourceStarted || event == CaptureEvent::Start || event == CaptureEvent::Pause
            || event == CaptureEvent::Finish || event == CaptureEvent::Reset || event == CaptureEvent::Close
            || event == CaptureEvent::Stop || event is SetTargetFps,
    ensures
        session.next(event).ready == session.ready,
{
    settling_keeps_latches(session);
}

proof fn latches_set_by_the_sources(session: CaptureModel, streaming: bool)
    ensures
        session.next(CaptureEvent::VideoStreaming(streaming)).ready == session.ready.with_video(streaming),
        session.next(CaptureEvent::AudioStreaming(streaming)).ready == session.ready.with_audio(streaming),
{
    let video = session.ready.with_video(streaming);
    let audio = session.ready.with_audio(streaming);
    assert(session.with_ready(video).ready == video) by {
        settling_keeps_latches(CaptureModel { ready: video, ..session });
    }
    assert(session.with_ready(audio).ready == audio) by {
        settling_keeps_latches(CaptureModel { ready: audio, ..session });
    }
}

/// A latch that is set stays set, whatever event comes.
pub proof fn next_keeps_latches(session: CaptureModel, event: CaptureEvent)
    ensures
        session.ready.video ==> session.next(event).ready.video,
        session.ready.audio ==> session.next(event).ready.audio,
{
    match event {
        CaptureEvent::ResolutionNegotiated(_) => latches_kept_while_negotiating(session, event),
        CaptureEvent::ResolutionPending(_) => latches_kept_while_negotiating(session, event),
        CaptureEvent::VideoEncoderCreated => latches_kept_while_building(session, event),
        CaptureEvent::AudioEncoderCreated => latches_kept_while_building(session, event),
        CaptureEvent::StepFailed => latches_kept_while_building(session, event),
        CaptureEvent::VideoStreaming(streaming) => latches_set_by_the_sources(session, streaming),
        CaptureEvent::AudioStreaming(streaming) => latches_set_by_the_sources(session, streaming),
        _ => latches_kept_by_the_caller(session, event),
    }
}

/// A latch that is set stays set over any run of events.
pub proof fn latches_stay_set(session: CaptureModel, events: Seq<CaptureEvent>)
    ensures
        session.ready.video ==> session.run(events).ready.video,
        session.ready.audio ==> session.run(events).ready.audio,
    decreases events.len(),
{
    if events.len() > 0 {
        next_keeps_latches(session, events[0]);
        latches_stay_set(session.next(events[0]), events.skip(1));
    }
}

/// A processing loop is started only by an event that leaves both latches set.
pub proof fn loops_start_only_when_ready(session: CaptureModel, event: CaptureEvent)
    ensures
        !session.next(event).ready.both() ==> starts_no_loop(session.commands(event)),
{
    housekeeping_starts_nothing(session);
    match event {
        CaptureEvent::Begin => {},
        CaptureEvent::VideoSourceStarted => {},
        CaptureEvent::ResolutionNegotiated(resolution) => {
            housekeeping_starts_nothing(CaptureModel { resolution: Some(resolution), ..session });
        },
        CaptureEvent::ResolutionPending(_) => {},
        CaptureEvent::VideoEncoderCreated => {
            housekeeping_starts_nothing(CaptureModel { video_encoder: true, ..session });
        },
        CaptureEvent::AudioSourceStarted => {},
        CaptureEvent::AudioEncoderCreated => {
            housekeeping_starts_nothing(CaptureModel { audio_encoder: true, ..session });
        },
        CaptureEvent::StepFailed => {},
        CaptureEvent::VideoStreaming(_) => {},
        CaptureEvent::AudioStreaming(_) => {},
        CaptureEvent::Start => {},
        CaptureEvent::Pause => {},
        CaptureEvent::Finish => {},
        CaptureEvent::Reset => {},
        CaptureEvent::Stop => {},
        CaptureEvent::SetTargetFps(_) => {},
        CaptureEvent::Close => {
            starts_no_loop_joined(session.drains(), session.teardown());
        },
    }
}

/// Nothing of the audio side is started by any event in a session without audio.
pub proof fn audio_stays_out(session: CaptureModel, event: CaptureEvent)
    requires
        session.consistent(),
        !session.include_audio,
    ensures
        starts_no_audio(session.commands(event)),
{
    housekeeping_starts_nothing(session);
    match event {
        CaptureEvent::Begin => {},
        CaptureEvent::VideoSourceStarted => {},
        CaptureEvent::ResolutionNegotiated(resolution) => {
            housekeeping_starts_nothing(CaptureModel { resolution: Some(resolution), ..session });
        },
        CaptureEvent::ResolutionPending(_) => {},
        CaptureEvent::VideoEncoderCreated => {
            housekeeping_starts_nothing(CaptureModel { video_encoder: true, ..session });
        },
        CaptureEvent::AudioSourceStarted => {},
        CaptureEvent::AudioEncoderCreated => {},
        CaptureEvent::StepFailed => {},
        CaptureEvent::VideoStreaming(_) => {},
        CaptureEvent::AudioStreaming(_) => {},
        CaptureEvent::Start => {},
        CaptureEvent::Pause => {},
        CaptureEvent::Finish => {},
        CaptureEvent::Reset => {},
        CaptureEvent::Stop => {},
        CaptureEvent::SetTargetFps(_) => {},
        CaptureEvent::Close => {
            starts_no_audio_joined(session.drains(), session.teardown());
        },
    }
}

/// Readiness gating: as long as a source has not begun to deliver, no processing loop has
/// been started, whatever events came, so no frame can have reached an encoder.
pub proof fn no_processing_before_readiness(session: CaptureModel, events: Seq<CaptureEvent>)
    requires
        !session.run(events).ready.both(),
    ensures
        starts_no_loop(session.issued(events)),
    decreases events.len(),
{
    if events.len() > 0 {
        let following = session.next(events[0]);
        loops_start_only_when_ready(session, events[0]);
        latches_stay_set(following, events.skip(1));
        no_processing_before_readiness(following, events.skip(1));
        starts_no_loop_joined(session.commands(events[0]), following.issued(events.skip(1)));
    }
}

proof fn teardown_keeps_stop(session: CaptureModel)
    ensures
        session.controls.stopped ==> session.settled().controls.stopped && session.processing().controls.stopped,
        session.failed(FailureCause::StepFailed).controls.stopped,
        session.failed(FailureCause::NegotiationTimeout).controls.stopped,
        session.after_close().phase == CapturePhase::Closed,
        session.phase != CapturePhase::Closed ==> session.after_close().controls.stopped,
        session.phase == CapturePhase::Closed ==> session.after_close() == session,
{
}

/// A session that was stopped stays stopped, whatever event comes.
pub proof fn next_keeps_stop(session: CaptureModel, event: CaptureEvent)
    requires
        session.controls.stopped,
    ensures
        session.next(event).controls.stopped,
{
    teardown_keeps_stop(session);
    match event {
        CaptureEvent::ResolutionNegotiated(resolution) => {
            teardown_keeps_stop(CaptureModel { resolution: Some(resolution), ..session });
        },
        CaptureEvent::VideoEncoderCreated => {
            teardown_keeps_stop(CaptureModel { video_encoder: true, ..session });
        },
        CaptureEvent::AudioEncoderCreated => {
            teardown_keeps_stop(CaptureModel { audio_encoder: true, ..session });
        },
        CaptureEvent::VideoStreaming(streaming) => {
            teardown_keeps_stop(CaptureModel { ready: session.ready.with_video(streaming), ..session });
        },
        CaptureEvent::AudioStreaming(streaming) => {
            teardown_keeps_stop(CaptureModel { ready: session.ready.with_audio(streaming), ..session });
        },
        _ => {},
    }
}

/// Stopping is final for a session: once its flags say stopped, no run of events makes
/// them say otherwise.
pub proof fn stopped_session_stays_stopped(session: CaptureModel, events: Seq<CaptureEvent>)
    requires
        session.controls.stopped,
    ensures
        session.run(events).controls.stopped,
    decreases events.len(),
{
    if events.len() > 0 {
        next_keeps_stop(session, events[0]);
        stopped_session_stays_stopped(session.next(events[0]), events.skip(1));
    }
}

/// Closing is idempotent: a second close changes nothing and asks for nothing.
pub proof fn close_is_idempotent(session: CaptureModel)
    ensures
        session.next(CaptureEvent::Close).next(CaptureEvent::Close) == session.next(CaptureEvent::Close),
        session.next(CaptureEvent::Close).commands(CaptureEvent::Close) == Seq::<CaptureCommand>::empty(),
{
}

/// A session that was closed stays closed and stopped, and no event makes it ask for
/// anything again.
pub proof fn closed_session_is_inert(session: CaptureModel, events: Seq<CaptureEvent>)
    requires
        session.consistent(),
        session.phase == CapturePhase::Closed,
    ensures
        session.run(events).phase == CapturePhase::Closed,
        session.run(events).controls.stopped,
        session.issued(events) == Seq::<CaptureCommand>::empty(),
    decreases events.len(),
{
    if events.len() > 0 {
        next_keeps_consistent(session, events[0]);
        closed_session_is_inert(session.next(events[0]), events.skip(1));
    }
}

/// A session that was created without audio never asks for an audio source, an audio
/// encoder or an audio loop.
pub proof fn audio_is_started_only_on_request(session: CaptureModel, events: Seq<CaptureEvent>)
    requires
        session.consistent(),
        !session.include_audio,
    ensures
        starts_no_audio(session.issued(events)),
    decreases events.len(),
{
    if events.len() > 0 {
        let following = session.next(events[0]);
        next_keeps_consistent(session, events[0]);
        audio_stays_out(session, events[0]);
        audio_is_started_only_on_request(following, events.skip(1));
        starts_no_audio_joined(session.commands(events[0]), following.issued(events.skip(1)));
    }
}

/// The session that `Capture::new` creates from its arguments.
pub open spec fn created(
    video_choice: Option<VideoEncoder>,
    audio_choice: AudioEncoder,
    quality: QualityPreset,
    include_cursor: bool,
    include_audio: bool,
    target_fps: u64,
) -> CaptureModel {
    CaptureModel {
        phase: CapturePhase::Created,
        controls: ControlState { stopped: false, paused: true, target_fps: target_fps as nat },
        ready: Readiness { video: false, audio: !include_audio },
        include_cursor,
        include_audio,
        video_choice,
        audio_choice,
        quality,
        custom_encoder: false,
        resolution: None,
        video_source: false,
        audio_source: false,
        video_loop: false,
        audio_loop: false,
        video_encoder: false,
        audio_encoder: false,
    }
}

/// The session that `Capture::new_with_encoder` creates from its arguments: video only,
/// around an encoder that exists already, and not paused.
pub open spec fn created_with_encoder(include_cursor: bool, target_fps: u64) -> CaptureModel {
    CaptureModel {
        controls: ControlState { stopped: false, paused: false, target_fps: target_fps as nat },
        custom_encoder: true,
        video_encoder: true,
        ..created(None, AudioEncoder::Opus, QualityPreset::Medium, include_cursor, false, target_fps)
    }
}

} // verus!
