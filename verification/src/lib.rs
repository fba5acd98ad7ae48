//! Lifecycle, gating and hand-off logic of a screen and audio capture pipeline.
//!
//! A capture session brings up two sources, video and audio, that deliver raw frames on
//! their own threads, hands the frames through bounded channels to loops that feed the
//! encoders, and can be paused, resumed, reset and closed at any time. This library holds
//! every decision of that pipeline and proves what it promises of them:
//!
//! - [`controls`] and [`ready`]: the lifecycle flags and the readiness latches. A session
//!   that was stopped stays stopped; a latch that was set stays set.
//! - [`capture`]: what a source does with a captured frame. Nothing is published before
//!   the other source is ready, nor while the session is paused or stopped, and
//!   publishing never blocks.
//! - [`encoders`]: the processing loop with its frame-rate decimation, the contract of an
//!   encoder, the framing of audio into codec windows, and the encoders that need no
//!   codec.
//! - [`pipeline`]: the session itself as a state machine from events to commands, from the
//!   construction protocol to an idempotent close.
//! - [`waycap_egl`] and [`utils`]: how a captured DMA buffer is described to the GPU.
//!
//! The library starts no thread and touches no device. Its caller runs the threads, the
//! native streams and the codecs, reports what happened, and carries out what the library
//! answers.

pub mod capture;
pub mod channel;
pub mod controls;
pub mod encoders;
pub mod pipeline;
pub mod ready;
pub mod text;
pub mod types;
pub mod utils;
pub mod waycap_egl;

pub use crate::controls::{CaptureControls, TIME_UNIT_NS};
pub use crate::encoders::dma_buf_encoder::DmaBufEncoder;
pub use crate::encoders::dynamic_encoder::{Backend, DynamicEncoder};
pub use crate::encoders::rgba_image_encoder::RgbaImageEncoder;
pub use crate::pipeline::capture::Capture;
pub use crate::ready::ReadyState;
pub use crate::types::video_frame::Resolution;
