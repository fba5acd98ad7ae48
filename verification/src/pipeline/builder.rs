//! Step-by-step configuration of a capture session.

use vstd::prelude::*;
use crate::pipeline::capture::Capture;
use crate::pipeline::model::created;
use crate::types::config::{AudioEncoder, QualityPreset, VideoEncoder};
use crate::types::error::WaycapError;

verus! {

/// Frame rate of a session that was given none.
pub const DEFAULT_TARGET_FPS: u64 = 60;

/// Collects the choices for a capture session. Nothing is checked and nothing is started
/// before `build`.
#[derive(Debug, Clone, Copy)]
pub struct CaptureBuilder {
    pub video_encoder: Option<VideoEncoder>,
    pub audio_encoder: Option<AudioEncoder>,
    pub quality_preset: Option<QualityPreset>,
    pub include_cursor: bool,
    pub include_audio: bool,
    pub target_fps: u64,
}

impl Default for CaptureBuilder {
    fn default() -> (builder: Self)
        ensures
            builder == CaptureBuilder::initial(),
    {
        Self::new()
    }
}

impl CaptureBuilder {
    /// The configuration that nothing has been chosen in.
    pub open spec fn initial() -> CaptureBuilder {
        CaptureBuilder {
            video_encoder: None,
            audio_encoder: None,
            quality_preset: None,
            include_cursor: false,
            include_audio: false,
            target_fps: DEFAULT_TARGET_FPS,
        }
    }

    /// The quality that the session gets: the one chosen, else medium.
    pub open spec fn quality(self) -> QualityPreset {
        match self.quality_preset {
            Some(quality) => quality,
            None => QualityPreset::Medium,
        }
    }

    /// The audio encoder that the session gets: the one chosen if audio is included, else
    /// Opus.
    pub open spec fn audio_choice(self) -> AudioEncoder {
        match self.audio_encoder {
            Some(encoder) => if self.include_audio {
                encoder
            } else {
                AudioEncoder::Opus
            },
            None => AudioEncoder::Opus,
        }
    }

    pub fn new() -> (builder: Self)
        ensures
            builder == Self::initial(),
    {
        Self {
            video_encoder: None,
            audio_encoder: None,
            quality_preset: None,
            include_cursor: false,
            include_audio: false,
            target_fps: DEFAULT_TARGET_FPS,
        }
    }

    /// Optional: Force use a specific video encoder.
    /// Default: Uses EGL to determine GPU at runtime.
    pub fn with_video_encoder(self, encoder: VideoEncoder) -> (builder: Self)
        ensures
            builder == (CaptureBuilder { video_encoder: Some(encoder), ..self }),
    {
        let mut builder = self;
        builder.video_encoder = Some(encoder);
        builder
    }

    /// Optional: Force use a specific audio encoder.
    /// Default: Opus audio encoder.
    pub fn with_audio_encoder(self, encoder: AudioEncoder) -> (builder: Self)
        ensures
            builder == (CaptureBuilder { audio_encoder: Some(encoder), ..self }),
    {
        let mut builder = self;
        builder.audio_encoder = Some(encoder);
        builder
    }

    pub fn with_cursor_shown(self) -> (builder: Self)
        ensures
            builder == (CaptureBuilder { include_cursor: true, ..self }),
    {
        let mut builder = self;
        builder.include_cursor = true;
        builder
    }

    pub fn with_audio(self) -> (builder: Self)
        ensures
            builder == (CaptureBuilder { include_audio: true, ..self }),
    {
        let mut builder = self;
        builder.include_audio = true;
        builder
    }

    pub fn with_quality_preset(self, quality: QualityPreset) -> (builder: Self)
        ensures
            builder == (CaptureBuilder { quality_preset: Some(quality), ..self }),
    {
        let mut builder = self;
        builder.quality_preset = Some(quality);
        builder
    }

    /// Optional: Set a target FPS for the recording.
    /// Default: 60fps
    pub fn with_target_fps(self, fps: u64) -> (builder: Self)
        ensures
            builder == (CaptureBuilder { target_fps: fps, ..self }),
    {
        let mut builder = self;
        builder.target_fps = fps;
        builder
    }

    /// Checks the configuration and creates the session that it describes, not yet
    /// started. A frame rate of 0 is the one configuration that is rejected.
    pub fn build(self) -> (capture: Result<Capture, WaycapError>)
        ensures
            capture is Ok <==> self.target_fps > 0,
            capture matches Ok(c) ==> c@ == created(
                self.video_encoder,
                self.audio_choice(),
                self.quality(),
                self.include_cursor,
                self.include_audio,
                self.target_fps,
            ),
            capture matches Err(e) ==> e is Config,
    {
        let quality = match self.quality_preset {
            Some(qual) => qual,
            None => QualityPreset::Medium,
        };
        let audio_encoder = if self.include_audio {
            match self.audio_encoder {
                Some(enc) => enc,
                None => AudioEncoder::Opus,
            }
        } else {
            AudioEncoder::Opus
        };
        Capture::new(
            self.video_encoder,
            audio_encoder,
            quality,
            self.include_cursor,
            self.include_audio,
            self.target_fps,
        )
    }
}

} // verus!
