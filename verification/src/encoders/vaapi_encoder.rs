//! How a quality preset tunes the VAAPI codec.

use vstd::prelude::*;
use crate::encoders::nvenc_encoder::{pairs, EncoderOption};
use crate::types::config::QualityPreset;

verus! {

/// The quantizer that a quality preset stands for.
pub open spec fn qp_for(quality: QualityPreset) -> Seq<char> {
    match quality {
        QualityPreset::Low => "30"@,
        QualityPreset::Medium => "25"@,
        QualityPreset::High => "20"@,
        QualityPreset::Ultra => "15"@,
    }
}

/// The options that open the VAAPI codec at a quality preset.
pub open spec fn encoder_params(quality: QualityPreset) -> Seq<(Seq<char>, Seq<char>)> {
    seq![("vsync"@, "vfr"@), ("rc"@, "VBR"@), ("qp"@, qp_for(quality))]
}

/// The options that open the VAAPI codec at a quality preset, in the order in which they
/// are set.
pub fn get_encoder_params(quality: QualityPreset) -> (options: Vec<EncoderOption>)
    ensures
        pairs(options@) == encoder_params(quality),
{
    let qp: &'static str = match quality {
        QualityPreset::Low => "30",
        QualityPreset::Medium => "25",
        QualityPreset::High => "20",
        QualityPreset::Ultra => "15",
    };
    let mut options: Vec<EncoderOption> = Vec::new();
    options.push(EncoderOption { key: "vsync", value: "vfr" });
    options.push(EncoderOption { key: "rc", value: "VBR" });
    options.push(EncoderOption { key: "qp", value: qp });
    options
}

} // verus!
