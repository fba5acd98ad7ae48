//! Encoders and the loops that feed them.

pub mod audio;
pub mod dma_buf_encoder;
pub mod dynamic_encoder;
pub mod nvenc_encoder;
pub mod opus_encoder;
pub mod rgba_image_encoder;
pub mod vaapi_encoder;
pub mod video;
