//! Video frames before and after encoding.

use vstd::prelude::*;

verus! {

/// Width and height of a frame, in pixels.
#[derive(Debug, Clone, Copy, PartialEq, Eq, Structural)]
pub struct Resolution {
    pub width: u32,
    pub height: u32,
}

/// One encoded video packet.
#[derive(Debug)]
pub struct EncodedVideoFrame {
    pub data: Vec<u8>,
    pub is_keyframe: bool,
    /// Encoder value for when it should be presented (Presentation TimeStamp)
    pub pts: i64,
    /// Encoder value for when it should be decoded (Decode TimeStamp)
    pub dts: i64,
}

/// One captured video sample: either a pixel buffer in `data`, or a DMA buffer named by
/// `dmabuf_fd` which stays valid only while the frame is being processed.
#[derive(Debug)]
pub struct RawVideoFrame {
    pub data: Vec<u8>,
    pub timestamp: i64,
    pub dmabuf_fd: Option<i32>,
    pub stride: i32,
    pub offset: u32,
    pub size: u32,
    pub modifier: u64,
    /// Raw identifier of the negotiated pixel format.
    pub format: u32,
    pub dimensions: Resolution,
}

/// One plane of a DMA buffer.
#[derive(Debug, Clone, Copy, PartialEq, Eq, Structural)]
pub struct DmaBufPlane {
    pub fd: i32,
    pub offset: u32,
    pub stride: u32,
}

impl EncodedVideoFrame {
    /// The frame published for a packet that left the codec: missing timestamps count as 0.
    pub fn from_packet(data: Vec<u8>, is_keyframe: bool, pts: Option<i64>, dts: Option<i64>) -> (frame: Self)
        ensures
            frame.data == data,
            frame.is_keyframe == is_keyframe,
            frame.pts == (if pts is Some { pts->0 } else { 0 }),
            frame.dts == (if dts is Some { dts->0 } else { 0 }),
    {
        let pts: i64 = match pts {
            Some(p) => p,
            None => 0,
        };
        let dts: i64 = match dts {
            Some(d) => d,
            None => 0,
        };
        EncodedVideoFrame { data, is_keyframe, pts, dts }
    }
}

} // verus!
