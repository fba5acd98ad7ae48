//! Choice of the video backend that a session encodes with, and the encoder that stands
//! for whichever backend was chosen.

use vstd::prelude::*;
use crate::encoders::video::{Asked, ProcessingThread};
use crate::types::config::VideoEncoder;
use crate::types::video_frame::{EncodedVideoFrame, RawVideoFrame};
use crate::types::error::WaycapError;
use crate::waycap_egl::GpuVendor;

verus! {

/// The backend that encodes on a GPU of the given vendor, if there is one.
pub open spec fn backend_for(vendor: GpuVendor) -> Option<VideoEncoder> {
    match vendor {
        GpuVendor::NVIDIA => Some(VideoEncoder::H264Nvenc),
        GpuVendor::AMD => Some(VideoEncoder::H264Vaapi),
        GpuVendor::INTEL => Some(VideoEncoder::H264Vaapi),
        GpuVendor::UNKNOWN => None,
    }
}

/// The backend that a session encodes with: the one the caller named, else the one that
/// fits the GPU.
pub open spec fn resolved(encoder_type: Option<VideoEncoder>, vendor: GpuVendor) -> Option<VideoEncoder> {
    match encoder_type {
        Some(named) => Some(named),
        None => backend_for(vendor),
    }
}

/// The video backend of a session, resolved once when the session is built.
#[derive(Debug, Clone, Copy, PartialEq, Eq, Structural)]
pub enum Backend {
    Vaapi,
    Nvenc,
}

impl Backend {
    /// The backend as the configuration names it.
    pub open spec fn kind(self) -> VideoEncoder {
        match self {
            Backend::Vaapi => VideoEncoder::H264Vaapi,
            Backend::Nvenc => VideoEncoder::H264Nvenc,
        }
    }

    /// True when the GPU has to be asked for its vendor before a backend can be chosen.
    pub fn needs_vendor(encoder_type: Option<VideoEncoder>) -> (needed: bool)
        ensures
            needed == (encoder_type is None),
    {
        encoder_type.is_none()
    }

    /// The backend for a GPU of the given vendor. A GPU of unknown make cannot be encoded
    /// on.
    pub fn for_vendor(vendor: GpuVendor) -> (backend: Result<Self, WaycapError>)
        ensures
            backend is Ok <==> backend_for(vendor) is Some,
            backend matches Ok(chosen) ==> backend_for(vendor) == Some(chosen.kind()),
            backend matches Err(e) ==> e is Init && e.detail() == "Unknown/Unimplemented GPU vendor"@,
    {
        match vendor {
            GpuVendor::NVIDIA => Ok(Backend::Nvenc),
            GpuVendor::AMD => Ok(Backend::Vaapi),
            GpuVendor::INTEL => Ok(Backend::Vaapi),
            GpuVendor::UNKNOWN => Err(WaycapError::init("Unknown/Unimplemented GPU vendor")),
        }
    }

    /// Resolves the backend of a session: the one the caller named wins, and only without
    /// one does the vendor of the GPU decide.
    pub fn resolve(encoder_type: Option<VideoEncoder>, vendor: GpuVendor) -> (backend: Result<Self, WaycapError>)
        ensures
            backend is Ok <==> resolved(encoder_type, vendor) is Some,
            backend matches Ok(chosen) ==> resolved(encoder_type, vendor) == Some(chosen.kind()),
            backend matches Err(e) ==> e is Init && e.detail() == "Unknown/Unimplemented GPU vendor"@,
    {
        match encoder_type {
            Some(VideoEncoder::H264Nvenc) => Ok(Backend::Nvenc),
            Some(VideoEncoder::H264Vaapi) => Ok(Backend::Vaapi),
            None => Self::for_vendor(vendor),
        }
    }

    /// The backend as the configuration names it.
    pub fn encoder_type(&self) -> (kind: VideoEncoder)
        ensures
            kind == self.kind(),
    {
        match self {
            Backend::Vaapi => VideoEncoder::H264Vaapi,
            Backend::Nvenc => VideoEncoder::H264Nvenc,
        }
    }
}

/// A video encoder that is one of two, chosen once when it is built. Whatever is asked
/// of it goes to the encoder that was chosen; which one that is never changes.
pub enum DynamicEncoder<V, N> {
    Vaapi(V),
    Nvenc(N),
}

impl<V, N> DynamicEncoder<V, N> {
    /// The backend that was chosen.
    pub open spec fn chosen(&self) -> Backend {
        match self {
            DynamicEncoder::Vaapi(_) => Backend::Vaapi,
            DynamicEncoder::Nvenc(_) => Backend::Nvenc,
        }
    }

    /// The backend that was chosen.
    pub fn backend(&self) -> (backend: Backend)
        ensures
            backend == self.chosen(),
    {
        match self {
            DynamicEncoder::Vaapi(_) => Backend::Vaapi,
            DynamicEncoder::Nvenc(_) => Backend::Nvenc,
        }
    }
}

impl<V, N> crate::encoders::video::VideoEncoder for DynamicEncoder<V, N> where
    V: crate::encoders::video::VideoEncoder<Output = EncodedVideoFrame>,
    N: crate::encoders::video::VideoEncoder<Output = EncodedVideoFrame>,
 {
    type Output = EncodedVideoFrame;

    open spec fn output_channel(&self) -> Option<crossbeam::channel::Receiver<EncodedVideoFrame>> {
        match self {
            DynamicEncoder::Vaapi(enc) => enc.output_channel(),
            DynamicEncoder::Nvenc(enc) => enc.output_channel(),
        }
    }

    open spec fn asked(&self) -> Asked {
        match self {
            DynamicEncoder::Vaapi(enc) => enc.asked(),
            DynamicEncoder::Nvenc(enc) => enc.asked(),
        }
    }

    fn reset(&mut self) -> (outcome: Result<(), WaycapError>)
        ensures
            final(self).chosen() == old(self).chosen(),
    {
        match self {
            DynamicEncoder::Vaapi(enc) => enc.reset(),
            DynamicEncoder::Nvenc(enc) => enc.reset(),
        }
    }

    fn output(&mut self) -> (receiver: Option<crossbeam::channel::Receiver<EncodedVideoFrame>>)
        ensures
            final(self).chosen() == old(self).chosen(),
    {
        match self {
            DynamicEncoder::Vaapi(enc) => enc.output(),
            DynamicEncoder::Nvenc(enc) => enc.output(),
        }
    }

    fn drop_processor(&mut self)
        ensures
            final(self).chosen() == old(self).chosen(),
    {
        match self {
            DynamicEncoder::Vaapi(enc) => enc.drop_processor(),
            DynamicEncoder::Nvenc(enc) => enc.drop_processor(),
        }
    }

    fn drain(&mut self) -> (outcome: Result<(), WaycapError>)
        ensures
            final(self).chosen() == old(self).chosen(),
    {
        match self {
            DynamicEncoder::Vaapi(enc) => enc.drain(),
            DynamicEncoder::Nvenc(enc) => enc.drain(),
        }
    }
}

impl<V, N> ProcessingThread for DynamicEncoder<V, N> where
    V: ProcessingThread<Output = EncodedVideoFrame>,
    N: ProcessingThread<Output = EncodedVideoFrame>,
 {
    fn process(&mut self, frame: RawVideoFrame) -> (outcome: Result<(), WaycapError>)
        ensures
            final(self).chosen() == old(self).chosen(),
    {
        match self {
            DynamicEncoder::Vaapi(enc) => enc.process(frame),
            DynamicEncoder::Nvenc(enc) => enc.process(frame),
        }
    }

    fn thread_setup(&mut self) -> (outcome: Result<(), WaycapError>)
        ensures
            final(self).chosen() == old(self).chosen(),
    {
        match self {
            DynamicEncoder::Vaapi(enc) => enc.thread_setup(),
            DynamicEncoder::Nvenc(enc) => enc.thread_setup(),
        }
    }

    fn thread_teardown(&mut self) -> (outcome: Result<(), WaycapError>)
        ensures
            final(self).chosen() == old(self).chosen(),
    {
        match self {
            DynamicEncoder::Vaapi(enc) => enc.thread_teardown(),
            DynamicEncoder::Nvenc(enc) => enc.thread_teardown(),
        }
    }
}

} // verus!
