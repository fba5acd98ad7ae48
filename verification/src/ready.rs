//! Readiness latches of the two capture sources.

use vstd::prelude::*;

verus! {

/// Which capture sources have begun delivering frames.
pub struct Readiness {
    pub video: bool,
    pub audio: bool,
}

impl Readiness {
    /// True when both sources deliver.
    pub open spec fn both(self) -> bool {
        self.video && self.audio
    }

    /// The latches after the video source reported whether it streams: set by a report
    /// of streaming, never cleared.
    pub open spec fn with_video(self, streaming: bool) -> Readiness {
        Readiness { video: self.video || streaming, audio: self.audio }
    }

    /// The latches after the audio source reported whether it streams.
    pub open spec fn with_audio(self, streaming: bool) -> Readiness {
        Readiness { video: self.video, audio: self.audio || streaming }
    }
}

/// State of audio/video readiness, used internally
#[derive(Debug, Clone, Copy)]
pub struct ReadyState {
    audio: bool,
    video: bool,
}

impl View for ReadyState {
    type V = Readiness;

    closed spec fn view(&self) -> Readiness {
        Readiness { video: self.video, audio: self.audio }
    }
}

impl Default for ReadyState {
    fn default() -> (state: Self)
        ensures
            state@ == (Readiness { video: false, audio: false }),
    {
        ReadyState { audio: false, video: false }
    }
}

impl ReadyState {
    pub fn video_ready(&self) -> (ready: bool)
        ensures
            ready == self@.video,
    {
        self.video
    }

    pub fn audio_ready(&self) -> (ready: bool)
        ensures
            ready == self@.audio,
    {
        self.audio
    }

    /// True when both latches are set: the condition that a wait for readiness ends on.
    pub fn both_ready(&self) -> (ready: bool)
        ensures
            ready == self@.both(),
    {
        self.audio && self.video
    }

    /// Records what the video source reported of its stream.
    pub fn video_state_changed(&mut self, streaming: bool)
        ensures
            final(self)@ == old(self)@.with_video(streaming),
    {
        if streaming {
            self.video = true;
        }
    }

    /// Records what the audio source reported of its stream.
    pub fn audio_state_changed(&mut self, streaming: bool)
        ensures
            final(self)@ == old(self)@.with_audio(streaming),
    {
        if streaming {
            self.audio = true;
        }
    }
}

} // verus!
