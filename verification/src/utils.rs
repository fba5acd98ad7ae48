//! Small helpers shared by the encoders.

use vstd::prelude::*;
use crate::types::error::WaycapError;
use crate::types::video_frame::{DmaBufPlane, RawVideoFrame};

verus! {

/// The plane that a frame's DMA buffer consists of.
pub open spec fn plane_of(raw_frame: RawVideoFrame, fd: i32) -> DmaBufPlane {
    DmaBufPlane { fd, offset: raw_frame.offset, stride: raw_frame.stride as u32 }
}

/// The planes of the DMA buffer that a frame refers to. A frame that carries its pixels
/// in memory has none, which is an error here.
pub fn extract_dmabuf_planes(raw_frame: &RawVideoFrame) -> (planes: Result<Vec<DmaBufPlane>, WaycapError>)
    ensures
        planes is Ok <==> raw_frame.dmabuf_fd is Some,
        planes matches Ok(list) ==> list@ == seq![plane_of(*raw_frame, raw_frame.dmabuf_fd->0)],
        planes matches Err(e) ==> e is Other && e.detail() == "No DMA-BUF file descriptor in frame"@,
{
    match raw_frame.dmabuf_fd {
        Some(fd) => {
            let mut planes: Vec<DmaBufPlane> = Vec::new();
            planes.push(
                DmaBufPlane {
                    fd,
                    offset: raw_frame.offset,
                    stride: #[verifier::truncate] (raw_frame.stride as u32),
                },
            );
            Ok(planes)
        },
        None => Err(WaycapError::other("No DMA-BUF file descriptor in frame")),
    }
}

} // verus!
