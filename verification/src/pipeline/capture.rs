//! The orchestrator of a capture session: it takes what happened and answers with what
//! has to be done next. Threads, native streams and encoders are run by its caller.

use vstd::prelude::*;
use crate::controls::{CaptureControls, ControlOp};
use crate::pipeline::model::{
    created, created_with_encoder, only_if, remaining, CaptureCommand, CaptureEvent, CaptureModel,
    CapturePhase, FailureCause, NEGOTIATION_TIMEOUT_MS,
};
use crate::ready::ReadyState;
use crate::types::config::{AudioEncoder, QualityPreset, VideoEncoder};
use crate::types::error::WaycapError;
use crate::types::video_frame::Resolution;

verus! {

/// Main capture instance for recording screen content and audio.
///
/// `Capture` decides how a session is brought up, controlled and taken down. Every
/// method that changes it answers with the commands that its caller carries out.
#[derive(Debug)]
pub struct Capture {
    phase: CapturePhase,
    controls: CaptureControls,
    ready: ReadyState,
    include_cursor: bool,
    include_audio: bool,
    video_choice: Option<VideoEncoder>,
    audio_choice: AudioEncoder,
    quality: QualityPreset,
    custom_encoder: bool,
    resolution: Option<Resolution>,
    video_source: bool,
    audio_source: bool,
    video_loop: bool,
    audio_loop: bool,
    video_encoder: bool,
    audio_encoder: bool,
}

impl View for Capture {
    type V = CaptureModel;

    closed spec fn view(&self) -> CaptureModel {
        CaptureModel {
            phase: self.phase,
            controls: self.controls@,
            ready: self.ready@,
            include_cursor: self.include_cursor,
            include_audio: self.include_audio,
            video_choice: self.video_choice,
            audio_choice: self.audio_choice,
            quality: self.quality,
            custom_encoder: self.custom_encoder,
            resolution: self.resolution,
            video_source: self.video_source,
            audio_source: self.audio_source,
            video_loop: self.video_loop,
            audio_loop: self.audio_loop,
            video_encoder: self.video_encoder,
            audio_encoder: self.audio_encoder,
        }
    }
}

fn push_when(out: &mut Vec<CaptureCommand>, wanted: bool, command: CaptureCommand)
    ensures
        final(out)@ == old(out)@ + only_if(wanted, command),
{
    if wanted {
        out.push(command);
    }
}

impl Capture {
    /// A session that has not been started. A frame rate of 0 is rejected. With audio
    /// left out, the audio latch is set from the beginning.
    pub fn new(
        video_encoder_type: Option<VideoEncoder>,
        audio_encoder_type: AudioEncoder,
        quality: QualityPreset,
        include_cursor: bool,
        include_audio: bool,
        target_fps: u64,
    ) -> (capture: Result<Self, WaycapError>)
        ensures
            capture is Ok <==> target_fps > 0,
            capture matches Ok(c) ==> c@ == created(
                video_encoder_type,
                audio_encoder_type,
                quality,
                include_cursor,
                include_audio,
                target_fps,
            ),
            capture matches Err(e) ==> e is Config,
    {
        if target_fps == 0 {
            return Err(WaycapError::config("target fps must be greater than zero"));
        }
        let mut ready = ReadyState::default();
        ready.audio_state_changed(!include_audio);
        Ok(
            Capture {
                phase: CapturePhase::Created,
                controls: CaptureControls::from_fps(target_fps),
                ready,
                include_cursor,
                include_audio,
                video_choice: video_encoder_type,
                audio_choice: audio_encoder_type,
                quality,
                custom_encoder: false,
                resolution: None,
                video_source: false,
                audio_source: false,
                video_loop: false,
                audio_loop: false,
                video_encoder: false,
                audio_encoder: false,
            },
        )
    }

    /// A video-only session around an encoder that the caller has built. A frame rate of
    /// 0 is rejected.
    pub fn new_with_encoder(include_cursor: bool, target_fps: u64) -> (capture: Result<Self, WaycapError>)
        ensures
            capture is Ok <==> target_fps > 0,
            capture matches Ok(c) ==> c@ == created_with_encoder(include_cursor, target_fps),
            capture matches Err(e) ==> e is Config,
    {
        if target_fps == 0 {
            return Err(WaycapError::config("target fps must be greater than zero"));
        }
        let mut ready = ReadyState::default();
        ready.audio_state_changed(true);
        let mut controls = CaptureControls::from_fps(target_fps);
        controls.resume();
        Ok(
            Capture {
                phase: CapturePhase::Created,
                controls,
                ready,
                include_cursor,
                include_audio: false,
                video_choice: None,
                audio_choice: AudioEncoder::Opus,
                quality: QualityPreset::Medium,
                custom_encoder: true,
                resolution: None,
                video_source: false,
                audio_source: false,
                video_loop: false,
                audio_loop: false,
                video_encoder: true,
                audio_encoder: false,
            },
        )
    }

    pub fn phase(&self) -> (phase: CapturePhase)
        ensures
            phase == self@.phase,
    {
        self.phase
    }

    /// The lifecycle flags of this session.
    pub fn controls(&self) -> (controls: &CaptureControls)
        ensures
            controls@ == self@.controls,
    {
        &self.controls
    }

    /// The readiness latches of this session.
    pub fn ready_state(&self) -> (ready: &ReadyState)
        ensures
            ready@ == self@.ready,
    {
        &self.ready
    }

    /// The resolution that the video source negotiated, once it is known.
    pub fn resolution(&self) -> (resolution: Option<Resolution>)
        ensures
            resolution == self@.resolution,
    {
        self.resolution
    }

    /// Number of worker threads that run.
    pub fn workers(&self) -> (count: u8)
        ensures
            count == self@.workers(),
    {
        let mut count: u8 = 0;
        if self.video_source {
            count = count + 1;
        }
        if self.audio_source {
            count = count + 1;
        }
        if self.video_loop {
            count = count + 1;
        }
        if self.audio_loop {
            count = count + 1;
        }
        count
    }

    pub fn has_video_encoder(&self) -> (present: bool)
        ensures
            present == self@.video_encoder,
    {
        self.video_encoder
    }

    pub fn has_audio_encoder(&self) -> (present: bool)
        ensures
            present == self@.audio_encoder,
    {
        self.audio_encoder
    }

    /// The error that construction ends with when the resolution was not negotiated in
    /// time; none for any other state.
    pub fn failure(&self) -> (error: Option<WaycapError>)
        ensures
            error is Some <==> self@.phase == CapturePhase::Failed(FailureCause::NegotiationTimeout),
            error matches Some(e) ==> e is Init && e.detail()
                == "Timed out waiting for pipewire to negotiate video resolution"@,
    {
        match self.phase {
            CapturePhase::Failed(FailureCause::NegotiationTimeout) => Some(
                WaycapError::init("Timed out waiting for pipewire to negotiate video resolution"),
            ),
            _ => None,
        }
    }

    /// Whether encoded audio can be received: an error where the session has no audio
    /// encoder.
    pub fn audio_receiver_available(&self) -> (outcome: Result<(), WaycapError>)
        ensures
            outcome is Ok <==> self@.audio_encoder,
            outcome matches Err(e) ==> e is Validation && e.detail() == "Audio encoder does not exist"@,
    {
        if self.audio_encoder {
            Ok(())
        } else {
            Err(WaycapError::validation("Audio encoder does not exist"))
        }
    }

    fn push_drains(&self, out: &mut Vec<CaptureCommand>)
        ensures
            final(out)@ == old(out)@ + self@.drains(),
    {
        push_when(out, self.video_encoder, CaptureCommand::DrainVideoEncoder);
        push_when(out, self.audio_encoder, CaptureCommand::DrainAudioEncoder);
    }

    fn push_resets(&self, out: &mut Vec<CaptureCommand>)
        ensures
            final(out)@ == old(out)@ + self@.resets(),
    {
        push_when(out, self.video_encoder, CaptureCommand::ResetVideoEncoder);
        push_when(out, self.audio_encoder, CaptureCommand::ResetAudioEncoder);
    }

    fn push_teardown(&self, out: &mut Vec<CaptureCommand>)
        ensures
            final(out)@ == old(out)@ + self@.teardown(),
    {
        let workers = self.workers();
        push_when(out, self.video_source, CaptureCommand::SignalVideoTermination);
        push_when(out, self.audio_source, CaptureCommand::SignalAudioTermination);
        push_when(out, workers > 0, CaptureCommand::JoinWorkers(workers));
        push_when(out, self.video_encoder, CaptureCommand::DropVideoEncoder);
        push_when(out, self.audio_encoder, CaptureCommand::DropAudioEncoder);
    }

    fn release(&mut self)
        ensures
            final(self)@ == old(self)@.released(),
    {
        self.video_source = false;
        self.audio_source = false;
        self.video_loop = false;
        self.audio_loop = false;
        self.video_encoder = false;
        self.audio_encoder = false;
    }

    fn fail(&mut self, cause: FailureCause, out: &mut Vec<CaptureCommand>)
        ensures
            final(self)@ == old(self)@.failed(cause),
            final(out)@ == old(out)@ + old(self)@.teardown(),
    {
        self.push_teardown(out);
        self.release();
        self.controls.stop();
        self.phase = CapturePhase::Failed(cause);
    }

    fn start_loops(&mut self, out: &mut Vec<CaptureCommand>)
        ensures
            final(self)@ == old(self)@.processing(),
            final(out)@ == old(out)@ + old(self)@.spawn_loops(),
    {
        push_when(out, self.include_audio, CaptureCommand::SpawnAudioProcessing);
        out.push(CaptureCommand::SpawnVideoProcessing);
        self.phase = CapturePhase::Running;
        self.video_loop = true;
        self.audio_loop = self.include_audio;
    }

    fn settle(&mut self, out: &mut Vec<CaptureCommand>)
        ensures
            final(self)@ == old(self)@.settled(),
            final(out)@ == old(out)@ + old(self)@.settle(),
    {
        if self.ready.both_ready() {
            self.start_loops(out);
        } else {
            self.phase = CapturePhase::AwaitingReadiness;
            out.push(CaptureCommand::AwaitReadiness);
        }
    }

    fn note_ready(&mut self, out: &mut Vec<CaptureCommand>)
        ensures
            final(self)@ == old(self)@.with_ready(old(self)@.ready),
            final(out)@ == old(out)@ + old(self)@.on_ready(old(self)@.ready),
    {
        if self.phase == CapturePhase::AwaitingReadiness && self.ready.both_ready() {
            self.start_loops(out);
        }
    }

    fn on_begin(&mut self) -> (commands: Vec<CaptureCommand>)
        ensures
            final(self)@ == old(self)@.after_begin(),
            commands@ == old(self)@.on_begin(),
    {
        let mut out: Vec<CaptureCommand> = Vec::new();
        if self.phase == CapturePhase::Created {
            out.push(CaptureCommand::SpawnVideoSource { include_cursor: self.include_cursor });
            self.phase = CapturePhase::StartingVideo;
        }
        out
    }

    fn on_video_source_started(&mut self) -> (commands: Vec<CaptureCommand>)
        ensures
            final(self)@ == old(self)@.after_video_source_started(),
            commands@ == old(self)@.on_video_source_started(),
    {
        let mut out: Vec<CaptureCommand> = Vec::new();
        if self.phase == CapturePhase::StartingVideo {
            out.push(CaptureCommand::AwaitResolution);
            self.phase = CapturePhase::Negotiating;
            self.video_source = true;
        }
        out
    }

    fn on_resolution(&mut self, resolution: Resolution) -> (commands: Vec<CaptureCommand>)
        ensures
            final(self)@ == old(self)@.after_resolution(resolution),
            commands@ == old(self)@.on_resolution(resolution),
    {
        let mut out: Vec<CaptureCommand> = Vec::new();
        if self.phase == CapturePhase::Negotiating {
            self.resolution = Some(resolution);
            if self.custom_encoder {
                self.settle(&mut out);
            } else {
                out.push(
                    CaptureCommand::CreateVideoEncoder {
                        choice: self.video_choice,
                        resolution,
                        quality: self.quality,
                    },
                );
                self.phase = CapturePhase::BuildingVideoEncoder;
            }
        }
        out
    }

    fn on_resolution_pending(&mut self, waited_ms: u64) -> (commands: Vec<CaptureCommand>)
        ensures
            final(self)@ == old(self)@.after_resolution_pending(waited_ms),
            commands@ == old(self)@.on_resolution_pending(waited_ms),
    {
        let mut out: Vec<CaptureCommand> = Vec::new();
        if self.phase == CapturePhase::Negotiating {
            if waited_ms > NEGOTIATION_TIMEOUT_MS {
                self.fail(FailureCause::NegotiationTimeout, &mut out);
            } else {
                out.push(CaptureCommand::AwaitResolution);
            }
        }
        out
    }

    fn on_video_encoder_created(&mut self) -> (commands: Vec<CaptureCommand>)
        ensures
            final(self)@ == old(self)@.after_video_encoder_created(),
            commands@ == old(self)@.on_video_encoder_created(),
    {
        let mut out: Vec<CaptureCommand> = Vec::new();
        if self.phase == CapturePhase::BuildingVideoEncoder {
            self.video_encoder = true;
            if self.include_audio {
                out.push(CaptureCommand::SpawnAudioSource);
                self.phase = CapturePhase::StartingAudio;
            } else {
                self.settle(&mut out);
            }
        }
        out
    }

    fn on_audio_source_started(&mut self) -> (commands: Vec<CaptureCommand>)
        ensures
            final(self)@ == old(self)@.after_audio_source_started(),
            commands@ == old(self)@.on_audio_source_started(),
    {
        let mut out: Vec<CaptureCommand> = Vec::new();
        if self.phase == CapturePhase::StartingAudio {
            out.push(CaptureCommand::CreateAudioEncoder(self.audio_choice));
            self.phase = CapturePhase::BuildingAudioEncoder;
            self.audio_source = true;
        }
        out
    }

    fn on_audio_encoder_created(&mut self) -> (commands: Vec<CaptureCommand>)
        ensures
            final(self)@ == old(self)@.after_audio_encoder_created(),
            commands@ == old(self)@.on_audio_encoder_created(),
    {
        let mut out: Vec<CaptureCommand> = Vec::new();
        if self.phase == CapturePhase::BuildingAudioEncoder {
            self.audio_encoder = true;
            self.settle(&mut out);
        }
        out
    }

    fn on_step_failed(&mut self) -> (commands: Vec<CaptureCommand>)
        ensures
            final(self)@ == old(self)@.after_step_failed(),
            commands@ == old(self)@.on_step_failed(),
    {
        let mut out: Vec<CaptureCommand> = Vec::new();
        if self.is_constructing() {
            self.fail(FailureCause::StepFailed, &mut out);
        }
        out
    }

    fn on_video_streaming(&mut self, streaming: bool) -> (commands: Vec<CaptureCommand>)
        ensures
            final(self)@ == old(self)@.with_ready(old(self)@.ready.with_video(streaming)),
            commands@ == old(self)@.on_ready(old(self)@.ready.with_video(streaming)),
    {
        let mut out: Vec<CaptureCommand> = Vec::new();
        self.ready.video_state_changed(streaming);
        self.note_ready(&mut out);
        out
    }

    fn on_audio_streaming(&mut self, streaming: bool) -> (commands: Vec<CaptureCommand>)
        ensures
            final(self)@ == old(self)@.with_ready(old(self)@.ready.with_audio(streaming)),
            commands@ == old(self)@.on_ready(old(self)@.ready.with_audio(streaming)),
    {
        let mut out: Vec<CaptureCommand> = Vec::new();
        self.ready.audio_state_changed(streaming);
        self.note_ready(&mut out);
        out
    }

    fn on_finish(&mut self) -> (commands: Vec<CaptureCommand>)
        ensures
            final(self)@ == old(self)@.with_controls(old(self)@.controls.apply(ControlOp::Pause)),
            commands@ == old(self)@.drains(),
    {
        let mut out: Vec<CaptureCommand> = Vec::new();
        self.controls.pause();
        self.push_drains(&mut out);
        out
    }

    fn on_close(&mut self) -> (commands: Vec<CaptureCommand>)
        ensures
            final(self)@ == old(self)@.after_close(),
            commands@ == old(self)@.on_close(),
    {
        let mut out: Vec<CaptureCommand> = Vec::new();
        if self.phase != CapturePhase::Closed {
            self.push_drains(&mut out);
            self.push_teardown(&mut out);
            self.release();
            self.controls.pause();
            self.controls.stop();
            self.phase = CapturePhase::Closed;
        }
        out
    }

    fn on_controls(&mut self, op: ControlOp) -> (commands: Vec<CaptureCommand>)
        ensures
            final(self)@ == old(self)@.with_controls(old(self)@.controls.apply(op)),
            commands@ == Seq::<CaptureCommand>::empty(),
    {
        match op {
            ControlOp::Stop => self.controls.stop(),
            ControlOp::Pause => self.controls.pause(),
            ControlOp::Resume => self.controls.resume(),
            ControlOp::SetTargetFps(fps) => {
                let _ = self.controls.set_target_fps(fps);
            },
        }
        Vec::new()
    }

    fn on_reset(&mut self) -> (commands: Vec<CaptureCommand>)
        ensures
            final(self)@ == old(self)@,
            commands@ == old(self)@.resets(),
    {
        let mut out: Vec<CaptureCommand> = Vec::new();
        self.push_resets(&mut out);
        out
    }

    /// Takes one event and answers with the commands that it calls for. An event that
    /// does not fit the phase changes nothing and calls for nothing.
    pub fn advance(&mut self, event: CaptureEvent) -> (commands: Vec<CaptureCommand>)
        ensures
            final(self)@ == old(self)@.next(event),
            commands@ == old(self)@.commands(event),
    {
        match event {
            CaptureEvent::Begin => self.on_begin(),
            CaptureEvent::VideoSourceStarted => self.on_video_source_started(),
            CaptureEvent::ResolutionNegotiated(resolution) => self.on_resolution(resolution),
            CaptureEvent::ResolutionPending(waited_ms) => self.on_resolution_pending(waited_ms),
            CaptureEvent::VideoEncoderCreated => self.on_video_encoder_created(),
            CaptureEvent::AudioSourceStarted => self.on_audio_source_started(),
            CaptureEvent::AudioEncoderCreated => self.on_audio_encoder_created(),
            CaptureEvent::StepFailed => self.on_step_failed(),
            CaptureEvent::VideoStreaming(streaming) => self.on_video_streaming(streaming),
            CaptureEvent::AudioStreaming(streaming) => self.on_audio_streaming(streaming),
            CaptureEvent::Start => self.on_controls(ControlOp::Resume),
            CaptureEvent::Pause => self.on_controls(ControlOp::Pause),
            CaptureEvent::Finish => self.on_finish(),
            CaptureEvent::Reset => self.on_reset(),
            CaptureEvent::Stop => self.on_controls(ControlOp::Stop),
            CaptureEvent::SetTargetFps(fps) => self.on_controls(ControlOp::SetTargetFps(fps)),
            CaptureEvent::Close => self.on_close(),
        }
    }

    fn is_constructing(&self) -> (constructing: bool)
        ensures
            constructing == self@.constructing(),
    {
        match self.phase {
            CapturePhase::StartingVideo => true,
            CapturePhase::Negotiating => true,
            CapturePhase::BuildingVideoEncoder => true,
            CapturePhase::StartingAudio => true,
            CapturePhase::BuildingAudioEncoder => true,
            _ => false,
        }
    }

    /// Enables capture streams to send their frames to their encoders
    pub fn start(&mut self) -> (outcome: Result<(), WaycapError>)
        ensures
            outcome is Ok,
            final(self)@ == old(self)@.next(CaptureEvent::Start),
    {
        let _ = self.advance(CaptureEvent::Start);
        Ok(())
    }

    /// Temporarily stops the recording by blocking frames from being sent to the encoders
    pub fn pause(&mut self)
        ensures
            final(self)@ == old(self)@.next(CaptureEvent::Pause),
    {
        let _ = self.advance(CaptureEvent::Pause);
    }

    /// Stops all processing for good. Nothing is taken down: that is what `close` does.
    pub fn stop(&mut self)
        ensures
            final(self)@ == old(self)@.next(CaptureEvent::Stop),
    {
        let _ = self.advance(CaptureEvent::Stop);
    }

    /// Changes the frame rate. A rate of 0 is rejected and changes nothing.
    pub fn set_target_fps(&mut self, fps: u64) -> (outcome: Result<(), WaycapError>)
        ensures
            final(self)@ == old(self)@.next(CaptureEvent::SetTargetFps(fps)),
            outcome is Ok <==> fps > 0,
            outcome matches Err(e) ==> e is Config,
    {
        if fps == 0 {
            Err(WaycapError::config("target fps must be greater than zero"))
        } else {
            let _ = self.advance(CaptureEvent::SetTargetFps(fps));
            Ok(())
        }
    }

    /// Says how a finish or a reset goes on after the first of its commands has been
    /// carried out. If that command succeeded, the others remain, in their order. If it
    /// failed, nothing remains and its error is the error of the whole: an encoder that
    /// comes later is left alone.
    pub fn after_step(commands: Vec<CaptureCommand>, outcome: Result<(), WaycapError>) -> (next: Result<Vec<CaptureCommand>, WaycapError>)
        ensures
            next is Ok <==> outcome is Ok,
            next matches Ok(rest) ==> rest@ == remaining(commands@, true),
            next matches Err(e) ==> outcome == Err::<(), WaycapError>(e),
    {
        match outcome {
            Ok(()) => {
                let mut commands = commands;
                if commands.len() > 0 {
                    Ok(commands.split_off(1))
                } else {
                    Ok(commands)
                }
            },
            Err(e) => Err(e),
        }
    }

    /// Stop recording and drain the encoders of any last frames they have in their internal
    /// buffers. Answers with the flushes to carry out, one after the other; `after_step`
    /// says after each what remains.
    pub fn finish(&mut self) -> (commands: Vec<CaptureCommand>)
        ensures
            final(self)@ == old(self)@.next(CaptureEvent::Finish),
            commands@ == old(self)@.drains(),
    {
        self.advance(CaptureEvent::Finish)
    }

    /// Resets the encoder states so we can resume encoding from within this same session.
    /// Answers with the resets to carry out, one after the other; `after_step` says after
    /// each what remains.
    pub fn reset(&mut self) -> (commands: Vec<CaptureCommand>)
        ensures
            final(self)@ == old(self)@,
            commands@ == old(self)@.resets(),
    {
        self.advance(CaptureEvent::Reset)
    }

    /// Close the connection. Once called the struct cannot be re-used and must be re-built
    /// to record again. A second call changes nothing and asks for nothing.
    pub fn close(&mut self) -> (commands: Vec<CaptureCommand>)
        ensures
            final(self)@ == old(self)@.next(CaptureEvent::Close),
            commands@ == old(self)@.commands(CaptureEvent::Close),
            final(self)@.phase == CapturePhase::Closed,
            old(self)@.phase == CapturePhase::Closed ==> final(self)@ == old(self)@ && commands@.len() == 0,
            old(self)@.phase != CapturePhase::Closed ==> final(self)@.controls.stopped && final(self)@.idle(),
    {
        self.advance(CaptureEvent::Close)
    }
}

} // verus!
