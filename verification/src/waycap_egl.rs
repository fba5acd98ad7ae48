//! What the pipeline decides around the GPU: which vendor drives it, which surface a
//! context gets, and how a DMA buffer is described for import.

use vstd::prelude::*;
use crate::text::{contains, lowercase_of, occurs_in, to_lowercase};
use crate::types::error::WaycapError;
use crate::types::video_frame::DmaBufPlane;

verus! {

/// Who made the GPU that renders the screen.
#[derive(Debug, Clone, Copy, PartialEq, Eq, Structural)]
#[allow(clippy::upper_case_acronyms)]
pub enum GpuVendor {
    NVIDIA,
    AMD,
    INTEL,
    UNKNOWN,
}

/// The vendor that a vendor string in lowercase names: NVIDIA first, then AMD by any of
/// its three names, then Intel.
pub open spec fn vendor_named(lowered: Seq<char>) -> GpuVendor {
    if occurs_in("nvidia"@, lowered) {
        GpuVendor::NVIDIA
    } else if occurs_in("ati"@, lowered) || occurs_in("amd"@, lowered) || occurs_in(
        "advanced micro devices"@,
        lowered,
    ) {
        GpuVendor::AMD
    } else if occurs_in("intel"@, lowered) {
        GpuVendor::INTEL
    } else {
        GpuVendor::UNKNOWN
    }
}

impl GpuVendor {
    /// The vendor named by a vendor string that is already in lowercase.
    pub fn from_lowercase(lowered: &str) -> (vendor: Self)
        ensures
            vendor == vendor_named(lowered@),
    {
        if contains(lowered, "nvidia") {
            GpuVendor::NVIDIA
        } else if contains(lowered, "ati") || contains(lowered, "amd") || contains(
            lowered,
            "advanced micro devices",
        ) {
            GpuVendor::AMD
        } else if contains(lowered, "intel") {
            GpuVendor::INTEL
        } else {
            GpuVendor::UNKNOWN
        }
    }

    /// The vendor named by the vendor string of the GL driver, whatever its case. A driver
    /// that gives no readable string has an unknown vendor.
    pub fn from_vendor_string(vendor: Option<&str>) -> (named: Self)
        ensures
            named == (match vendor {
                Some(text) => vendor_named(lowercase_of(text@)),
                None => GpuVendor::UNKNOWN,
            }),
    {
        match vendor {
            Some(text) => {
                let lowered = to_lowercase(text);
                Self::from_lowercase(lowered.as_str())
            },
            None => GpuVendor::UNKNOWN,
        }
    }
}

/// The surface that an EGL context renders to.
#[derive(Debug, Clone, Copy, PartialEq, Eq, Structural)]
pub enum SurfaceKind {
    /// An off-screen pixel buffer.
    Pbuffer,
    /// No surface at all.
    Surfaceless,
}

/// Which DMA buffer imports the EGL display offers.
#[derive(Debug, Clone, Copy, PartialEq, Eq, Structural)]
pub struct DmaBufSupport {
    pub import: bool,
    pub modifiers: bool,
}

/// `khronos_egl::PBUFFER_BIT`: the bit of a config's surface type that stands for pixel
/// buffers.
#[verifier::external_body]
fn pbuffer_bit() -> (bit: i32)
    ensures
        bit == 0x0001,
{
    khronos_egl::PBUFFER_BIT
}

/// `khronos_egl::WIDTH`, as an attribute.
#[verifier::external_body]
fn width_key() -> (key: usize)
    ensures
        key == 0x3057,
{
    khronos_egl::WIDTH as usize
}

/// `khronos_egl::HEIGHT`, as an attribute.
#[verifier::external_body]
fn height_key() -> (key: usize)
    ensures
        key == 0x3056,
{
    khronos_egl::HEIGHT as usize
}

/// `khronos_egl::NONE`, as an attribute: the end of an attribute list.
#[verifier::external_body]
fn none_key() -> (key: usize)
    ensures
        key == 0x3038,
{
    khronos_egl::NONE as usize
}

/// The surface for a context on a config with surface type `surface_type`, on a display
/// with the extensions `extensions`: a pixel buffer where the config offers one, else no
/// surface where the display allows that.
pub open spec fn surface_for(surface_type: i32, extensions: Seq<char>) -> Option<SurfaceKind> {
    if surface_type & 0x0001 != 0 {
        Some(SurfaceKind::Pbuffer)
    } else if occurs_in("EGL_KHR_surfaceless_context"@, extensions) {
        Some(SurfaceKind::Surfaceless)
    } else {
        None
    }
}

/// Picks the surface for a new context, or fails where the display offers none that fits.
pub fn choose_surface(surface_type: i32, extensions: &str) -> (choice: Result<SurfaceKind, WaycapError>)
    ensures
        choice matches Ok(kind) ==> surface_for(surface_type, extensions@) == Some(kind),
        choice matches Err(e) ==> surface_for(surface_type, extensions@) is None && e is Other && e.detail()
            == "No suitable surface type available"@,
{
    if surface_type & pbuffer_bit() != 0 {
        Ok(SurfaceKind::Pbuffer)
    } else if contains(extensions, "EGL_KHR_surfaceless_context") {
        Ok(SurfaceKind::Surfaceless)
    } else {
        Err(WaycapError::other("No suitable surface type available"))
    }
}

/// Reads from the display's extensions which DMA buffer imports it offers. A display
/// without plain import is of no use.
pub fn check_dmabuf_support(extensions: &str) -> (support: Result<DmaBufSupport, WaycapError>)
    ensures
        support is Ok <==> occurs_in("EGL_EXT_image_dma_buf_import"@, extensions@),
        support matches Ok(s) ==> s.import && s.modifiers == occurs_in(
            "EGL_EXT_image_dma_buf_import_modifiers"@,
            extensions@,
        ),
        support matches Err(e) ==> e is Other && e.detail() == "EGL_EXT_image_dma_buf_import not supported"@,
{
    let import = contains(extensions, "EGL_EXT_image_dma_buf_import");
    let modifiers = contains(extensions, "EGL_EXT_image_dma_buf_import_modifiers");
    if !import {
        return Err(WaycapError::other("EGL_EXT_image_dma_buf_import not supported"));
    }
    Ok(DmaBufSupport { import, modifiers })
}

/// `EGL_LINUX_DRM_FOURCC_EXT`
pub const LINUX_DRM_FOURCC: usize = 0x3271;

/// `EGL_DMA_BUF_PLANE0_FD_EXT`; the keys of a plane's descriptor, offset and pitch follow
/// it, then those of the next plane.
pub const DMA_BUF_PLANE0_FD: usize = 0x3272;

/// `EGL_DMA_BUF_PLANE0_MODIFIER_LO_EXT`; the key of the modifier's high half follows it,
/// then those of the next plane.
pub const DMA_BUF_PLANE0_MODIFIER_LO: usize = 0x3443;

/// Most planes of a buffer that are described for import.
pub const MAX_PLANES: usize = 3;

/// The attributes of plane number `index`: descriptor, offset and pitch, each behind its
/// key, and behind them the two halves of the modifier where modifiers are in use.
pub open spec fn plane_attributes(index: int, plane: DmaBufPlane, modifier: u64, with_modifiers: bool) -> Seq<usize> {
    let base = seq![
        (DMA_BUF_PLANE0_FD + 3 * index) as usize,
        plane.fd as usize,
        (DMA_BUF_PLANE0_FD + 3 * index + 1) as usize,
        plane.offset as usize,
        (DMA_BUF_PLANE0_FD + 3 * index + 2) as usize,
        plane.stride as usize,
    ];
    if with_modifiers {
        base + seq![
            (DMA_BUF_PLANE0_MODIFIER_LO + 2 * index) as usize,
            (modifier & 0xFFFFFFFF) as usize,
            (DMA_BUF_PLANE0_MODIFIER_LO + 2 * index + 1) as usize,
            (modifier >> 32) as usize,
        ]
    } else {
        base
    }
}

/// The attributes of the first `count` planes, in order.
pub open spec fn planes_attributes(planes: Seq<DmaBufPlane>, modifier: u64, with_modifiers: bool, count: int) -> Seq<usize>
    decreases count,
{
    if count <= 0 {
        Seq::empty()
    } else {
        planes_attributes(planes, modifier, with_modifiers, count - 1) + plane_attributes(
            count - 1,
            planes[count - 1],
            modifier,
            with_modifiers,
        )
    }
}

/// The attribute list that describes a DMA buffer to EGL: pixel format, width and height,
/// then at most three planes, then the end mark.
pub open spec fn image_attributes(
    planes: Seq<DmaBufPlane>,
    format: u32,
    width: u32,
    height: u32,
    modifier: u64,
    with_modifiers: bool,
) -> Seq<usize> {
    seq![LINUX_DRM_FOURCC, format as usize, 0x3057usize, width as usize, 0x3056usize, height as usize]
        + planes_attributes(
        planes,
        modifier,
        with_modifiers,
        if planes.len() < MAX_PLANES {
            planes.len() as int
        } else {
            MAX_PLANES as int
        },
    ) + seq![0x3038usize]
}

impl DmaBufSupport {
    /// Describes a DMA buffer for import as an EGL image. Fails where the display cannot
    /// import DMA buffers.
    pub fn create_image_attributes(
        &self,
        planes: &[DmaBufPlane],
        format: u32,
        width: u32,
        height: u32,
        modifier: u64,
    ) -> (attributes: Result<Vec<usize>, WaycapError>)
        ensures
            attributes is Ok <==> self.import,
            attributes matches Ok(list) ==> list@ == image_attributes(
                planes@,
                format,
                width,
                height,
                modifier,
                self.modifiers,
            ),
            attributes matches Err(e) ==> e is Other && e.detail() == "DMA-BUF import not supported"@,
    {
        if !self.import {
            return Err(WaycapError::other("DMA-BUF import not supported"));
        }
        let mut attributes: Vec<usize> = Vec::new();
        attributes.push(LINUX_DRM_FOURCC);
        attributes.push(format as usize);
        attributes.push(width_key());
        attributes.push(width as usize);
        attributes.push(height_key());
        attributes.push(height as usize);
        let ghost head = attributes@;
        let count: usize = if planes.len() < MAX_PLANES {
            planes.len()
        } else {
            MAX_PLANES
        };
        let mut index: usize = 0;
        while index < count
            invariant
                index <= count <= MAX_PLANES,
                count <= planes@.len(),
                attributes@ == head + planes_attributes(planes@, modifier, self.modifiers, index as int),
            decreases count - index,
        {
            let plane = planes[index];
            let ghost before = attributes@;
            attributes.push(DMA_BUF_PLANE0_FD + 3 * index);
            attributes.push(#[verifier::truncate] (plane.fd as usize));
            attributes.push(DMA_BUF_PLANE0_FD + 3 * index + 1);
            attributes.push(plane.offset as usize);
            attributes.push(DMA_BUF_PLANE0_FD + 3 * index + 2);
            attributes.push(plane.stride as usize);
            if self.modifiers {
                attributes.push(DMA_BUF_PLANE0_MODIFIER_LO + 2 * index);
                attributes.push(#[verifier::truncate] ((modifier & 0xFFFFFFFF) as usize));
                attributes.push(DMA_BUF_PLANE0_MODIFIER_LO + 2 * index + 1);
                attributes.push(#[verifier::truncate] ((modifier >> 32) as usize));
            }
            assert(attributes@ == before + plane_attributes(index as int, plane, modifier, self.modifiers));
            index = index + 1;
        }
        attributes.push(none_key());
        Ok(attributes)
    }
}

} // verus!
