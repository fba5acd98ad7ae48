//! Plain data carried through the capture pipeline.

pub mod audio_frame;
pub mod config;
pub mod error;
pub mod video_frame;
