//! Choices a caller makes when configuring a capture session.

use vstd::prelude::*;

verus! {

/// Hardware video encoder backends.
#[derive(Debug, Clone, Copy, PartialEq, Eq, Structural)]
pub enum VideoEncoder {
    H264Nvenc,
    H264Vaapi,
}

/// Audio encoder backends.
#[derive(Debug, Clone, Copy, PartialEq, Eq, Structural)]
pub enum AudioEncoder {
    Opus,
}

/// Trade-off between output size and fidelity.
#[derive(Debug, Clone, Copy, PartialEq, Eq, Structural)]
pub enum QualityPreset {
    Low,
    Medium,
    High,
    Ultra,
}

} // verus!
