//! What the NVENC backend decides without touching the GPU: how a captured DMA buffer is
//! described for import, and how a quality preset tunes the codec.

use vstd::prelude::*;
use crate::types::config::QualityPreset;
use crate::types::error::WaycapError;
use crate::types::video_frame::RawVideoFrame;
use crate::utils::{extract_dmabuf_planes, plane_of};
use crate::waycap_egl::{image_attributes, DmaBufSupport};

verus! {

/// `drm_fourcc::DrmFourcc::Argb8888` as its code: the four characters `AR24`.
#[verifier::external_body]
fn argb8888() -> (code: u32)
    ensures
        code == 0x34325241,
{
    drm_fourcc::DrmFourcc::Argb8888 as u32
}

/// Code of the pixel format that captured DMA buffers are imported as.
pub const IMPORT_FORMAT: u32 = 0x34325241;

/// One option handed to the codec when it is opened.
#[derive(Debug, Clone, Copy)]
pub struct EncoderOption {
    pub key: &'static str,
    pub value: &'static str,
}

impl View for EncoderOption {
    type V = (Seq<char>, Seq<char>);

    open spec fn view(&self) -> (Seq<char>, Seq<char>) {
        (self.key@, self.value@)
    }
}

/// The options that `options` holds, as pairs of texts.
pub open spec fn pairs(options: Seq<EncoderOption>) -> Seq<(Seq<char>, Seq<char>)> {
    Seq::new(options.len(), |i: int| options[i]@)
}

/// The encoder preset that a quality preset stands for.
pub open spec fn preset_for(quality: QualityPreset) -> Seq<char> {
    match quality {
        QualityPreset::Low => "p2"@,
        QualityPreset::Medium => "p4"@,
        QualityPreset::High => "p7"@,
        QualityPreset::Ultra => "p7"@,
    }
}

/// The constant-quality level that a quality preset stands for.
pub open spec fn cq_for(quality: QualityPreset) -> Seq<char> {
    match quality {
        QualityPreset::Low => "30"@,
        QualityPreset::Medium => "25"@,
        QualityPreset::High => "20"@,
        QualityPreset::Ultra => "15"@,
    }
}

/// The video bit rate that a quality preset stands for.
pub open spec fn bitrate_for(quality: QualityPreset) -> Seq<char> {
    match quality {
        QualityPreset::Low => "20M"@,
        QualityPreset::Medium => "40M"@,
        QualityPreset::High => "80M"@,
        QualityPreset::Ultra => "120M"@,
    }
}

/// The options that open the NVENC codec at a quality preset.
pub open spec fn encoder_params(quality: QualityPreset) -> Seq<(Seq<char>, Seq<char>)> {
    seq![
        ("vsync"@, "vfr"@),
        ("rc"@, "vbr"@),
        ("tune"@, "hq"@),
        ("preset"@, preset_for(quality)),
        ("cq"@, cq_for(quality)),
        ("b:v"@, bitrate_for(quality)),
    ]
}

/// The options that open the NVENC codec at a quality preset, in the order in which they
/// are set.
pub fn get_encoder_params(quality: QualityPreset) -> (options: Vec<EncoderOption>)
    ensures
        pairs(options@) == encoder_params(quality),
{
    let (preset, cq, bitrate): (&'static str, &'static str, &'static str) = match quality {
        QualityPreset::Low => ("p2", "30", "20M"),
        QualityPreset::Medium => ("p4", "25", "40M"),
        QualityPreset::High => ("p7", "20", "80M"),
        QualityPreset::Ultra => ("p7", "15", "120M"),
    };
    let mut options: Vec<EncoderOption> = Vec::new();
    options.push(EncoderOption { key: "vsync", value: "vfr" });
    options.push(EncoderOption { key: "rc", value: "vbr" });
    options.push(EncoderOption { key: "tune", value: "hq" });
    options.push(EncoderOption { key: "preset", value: preset });
    options.push(EncoderOption { key: "cq", value: cq });
    options.push(EncoderOption { key: "b:v", value: bitrate });
    options
}

/// The attribute list under which a captured frame is imported as an EGL image: its one
/// DMA buffer plane, as 32-bit ARGB, in the frame's own size and layout. Fails for a frame
/// without a DMA buffer and on a display that cannot import one.
pub fn egl_img_from_dmabuf(support: &DmaBufSupport, raw_frame: &RawVideoFrame) -> (attributes: Result<
    Vec<usize>,
    WaycapError,
>)
    ensures
        attributes is Ok <==> raw_frame.dmabuf_fd is Some && support.import,
        attributes matches Ok(list) ==> list@ == image_attributes(
            seq![plane_of(*raw_frame, raw_frame.dmabuf_fd->0)],
            IMPORT_FORMAT,
            raw_frame.dimensions.width,
            raw_frame.dimensions.height,
            raw_frame.modifier,
            support.modifiers,
        ),
        attributes matches Err(e) ==> e is Other && e.detail() == (if raw_frame.dmabuf_fd is None {
            "No DMA-BUF file descriptor in frame"@
        } else {
            "DMA-BUF import not supported"@
        }),
{
    let planes = match extract_dmabuf_planes(raw_frame) {
        Ok(planes) => planes,
        Err(e) => {
            return Err(e);
        },
    };
    support.create_image_attributes(
        planes.as_slice(),
        argb8888(),
        raw_frame.dimensions.width,
        raw_frame.dimensions.height,
        raw_frame.modifier,
    )
}

} // verus!
