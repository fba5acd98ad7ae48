use waycap_rs::encoders::dynamic_encoder::Backend;
use waycap_rs::encoders::nvenc_encoder::{egl_img_from_dmabuf, get_encoder_params, EncoderOption};
use waycap_rs::types::config::{QualityPreset, VideoEncoder};
use waycap_rs::types::video_frame::{DmaBufPlane, EncodedVideoFrame, RawVideoFrame, Resolution};
use waycap_rs::utils::extract_dmabuf_planes;
use waycap_rs::waycap_egl::{
    check_dmabuf_support, choose_surface, DmaBufSupport, GpuVendor, SurfaceKind,
};

fn dma_frame(fd: Option<i32>) -> RawVideoFrame {
    RawVideoFrame {
        data: Vec::new(),
        timestamp: 5,
        dmabuf_fd: fd,
        stride: 7680,
        offset: 64,
        size: 0,
        modifier: 0x0300_0000_0060_6015,
        format: 8,
        dimensions: Resolution { width: 1920, height: 1080 },
    }
}

fn as_pairs(options: &[EncoderOption]) -> Vec<(&str, &str)> {
    options.iter().map(|o| (o.key, o.value)).collect()
}

#[test]
fn vendor_is_read_from_the_driver_string() {
    assert_eq!(GpuVendor::from_vendor_string(Some("NVIDIA Corporation")), GpuVendor::NVIDIA);
    assert_eq!(GpuVendor::from_vendor_string(Some("nvidia")), GpuVendor::NVIDIA);
    assert_eq!(GpuVendor::from_vendor_string(Some("AMD")), GpuVendor::AMD);
    assert_eq!(GpuVendor::from_vendor_string(Some("ATI Technologies Inc.")), GpuVendor::AMD);
    assert_eq!(GpuVendor::from_vendor_string(Some("Advanced Micro Devices, Inc.")), GpuVendor::AMD);
    assert_eq!(GpuVendor::from_vendor_string(Some("Intel Open Source Technology Center")), GpuVendor::INTEL);
    assert_eq!(GpuVendor::from_vendor_string(Some("Mesa/X.org")), GpuVendor::UNKNOWN);
    assert_eq!(GpuVendor::from_vendor_string(Some("")), GpuVendor::UNKNOWN);
    assert_eq!(GpuVendor::from_vendor_string(None), GpuVendor::UNKNOWN);
    // "corporation" holds "ati", so it reads as AMD wherever NVIDIA is not named.
    assert_eq!(GpuVendor::from_vendor_string(Some("Intel Corporation")), GpuVendor::AMD);
    assert_eq!(GpuVendor::from_vendor_string(Some("NVIDIA and Intel")), GpuVendor::NVIDIA);
}

#[test]
fn lowercase_vendor_string_is_matched_as_it_stands() {
    assert_eq!(GpuVendor::from_lowercase("nvidia corporation"), GpuVendor::NVIDIA);
    assert_eq!(GpuVendor::from_lowercase("NVIDIA"), GpuVendor::UNKNOWN);
    assert_eq!(GpuVendor::from_lowercase("intel"), GpuVendor::INTEL);
    assert_eq!(GpuVendor::from_lowercase("inte"), GpuVendor::UNKNOWN);
    assert_eq!(GpuVendor::from_lowercase("xamdx"), GpuVendor::AMD);
}

#[test]
fn backend_follows_the_callers_choice_then_the_vendor() {
    assert!(Backend::needs_vendor(None));
    assert!(!Backend::needs_vendor(Some(VideoEncoder::H264Vaapi)));
    assert_eq!(Backend::resolve(None, GpuVendor::NVIDIA).unwrap(), Backend::Nvenc);
    assert_eq!(Backend::resolve(None, GpuVendor::AMD).unwrap(), Backend::Vaapi);
    assert_eq!(Backend::resolve(None, GpuVendor::INTEL).unwrap(), Backend::Vaapi);
    assert_eq!(
        Backend::resolve(None, GpuVendor::UNKNOWN).unwrap_err().message(),
        "Initialization error: Unknown/Unimplemented GPU vendor"
    );
    assert_eq!(
        Backend::resolve(Some(VideoEncoder::H264Vaapi), GpuVendor::NVIDIA).unwrap(),
        Backend::Vaapi
    );
    assert_eq!(
        Backend::resolve(Some(VideoEncoder::H264Nvenc), GpuVendor::UNKNOWN).unwrap(),
        Backend::Nvenc
    );
    assert_eq!(Backend::for_vendor(GpuVendor::NVIDIA).unwrap().encoder_type(), VideoEncoder::H264Nvenc);
    assert_eq!(Backend::for_vendor(GpuVendor::INTEL).unwrap().encoder_type(), VideoEncoder::H264Vaapi);
    assert!(Backend::for_vendor(GpuVendor::UNKNOWN).is_err());
}

#[test]
fn surface_is_a_pixel_buffer_where_the_config_has_one() {
    assert_eq!(choose_surface(0x0001, "").unwrap(), SurfaceKind::Pbuffer);
    assert_eq!(choose_surface(0x0005, "EGL_KHR_surfaceless_context").unwrap(), SurfaceKind::Pbuffer);
    assert_eq!(choose_surface(-1, "").unwrap(), SurfaceKind::Pbuffer);
    assert_eq!(
        choose_surface(0x0004, "EGL_EXT_foo EGL_KHR_surfaceless_context EGL_bar").unwrap(),
        SurfaceKind::Surfaceless
    );
    assert_eq!(
        choose_surface(0x0004, "EGL_KHR_surfaceless").unwrap_err().message(),
        "Error: No suitable surface type available"
    );
    assert!(choose_surface(0, "").is_err());
}

#[test]
fn dmabuf_support_is_read_from_the_extensions() {
    let plain = check_dmabuf_support("EGL_KHR_image EGL_EXT_image_dma_buf_import EGL_KHR_fence_sync").unwrap();
    assert_eq!(plain, DmaBufSupport { import: true, modifiers: false });
    let both = check_dmabuf_support("EGL_EXT_image_dma_buf_import EGL_EXT_image_dma_buf_import_modifiers").unwrap();
    assert_eq!(both, DmaBufSupport { import: true, modifiers: true });
    let implied = check_dmabuf_support("EGL_EXT_image_dma_buf_import_modifiers").unwrap();
    assert_eq!(implied, DmaBufSupport { import: true, modifiers: true });
    assert_eq!(
        check_dmabuf_support("EGL_KHR_image").unwrap_err().message(),
        "Error: EGL_EXT_image_dma_buf_import not supported"
    );
}

#[test]
fn image_attributes_list_format_size_planes_and_end_mark() {
    let without = DmaBufSupport { import: true, modifiers: false };
    let one = [DmaBufPlane { fd: 9, offset: 16, stride: 7680 }];
    assert_eq!(
        without.create_image_attributes(&one, 0x3432_5241, 1920, 1080, 0xffff_ffff_0000_0001).unwrap(),
        vec![
            0x3271, 0x3432_5241, 0x3057, 1920, 0x3056, 1080, 0x3272, 9, 0x3273, 16, 0x3274, 7680,
            0x3038
        ]
    );
    let with = DmaBufSupport { import: true, modifiers: true };
    assert_eq!(
        with.create_image_attributes(&one, 0x3432_5241, 1920, 1080, 0x0102_0304_0506_0708).unwrap(),
        vec![
            0x3271, 0x3432_5241, 0x3057, 1920, 0x3056, 1080, 0x3272, 9, 0x3273, 16, 0x3274, 7680,
            0x3443, 0x0506_0708, 0x3444, 0x0102_0304, 0x3038
        ]
    );
    assert_eq!(
        with.create_image_attributes(&[], 1, 2, 3, 4).unwrap(),
        vec![0x3271, 1, 0x3057, 2, 0x3056, 3, 0x3038]
    );
}

#[test]
fn at_most_three_planes_are_described() {
    let planes = [
        DmaBufPlane { fd: 1, offset: 10, stride: 100 },
        DmaBufPlane { fd: 2, offset: 20, stride: 200 },
        DmaBufPlane { fd: 3, offset: 30, stride: 300 },
        DmaBufPlane { fd: 4, offset: 40, stride: 400 },
    ];
    let with = DmaBufSupport { import: true, modifiers: true };
    assert_eq!(
        with.create_image_attributes(&planes, 7, 8, 9, (5 << 32) | 6).unwrap(),
        vec![
            0x3271, 7, 0x3057, 8, 0x3056, 9, //
            0x3272, 1, 0x3273, 10, 0x3274, 100, 0x3443, 6, 0x3444, 5, //
            0x3275, 2, 0x3276, 20, 0x3277, 200, 0x3445, 6, 0x3446, 5, //
            0x3278, 3, 0x3279, 30, 0x327A, 300, 0x3447, 6, 0x3448, 5, //
            0x3038
        ]
    );
    let without = DmaBufSupport { import: true, modifiers: false };
    assert_eq!(
        without.create_image_attributes(&planes[..2], 7, 8, 9, 0).unwrap(),
        vec![
            0x3271, 7, 0x3057, 8, 0x3056, 9, 0x3272, 1, 0x3273, 10, 0x3274, 100, 0x3275, 2, 0x3276,
            20, 0x3277, 200, 0x3038
        ]
    );
}

#[test]
fn negative_descriptor_is_passed_on_sign_extended() {
    let support = DmaBufSupport { import: true, modifiers: false };
    let plane = [DmaBufPlane { fd: -1, offset: 0, stride: 0 }];
    let attributes = support.create_image_attributes(&plane, 0, 0, 0, 0).unwrap();
    assert_eq!(attributes[7], usize::MAX);
}

#[test]
fn display_without_import_cannot_describe_a_buffer() {
    let support = DmaBufSupport { import: false, modifiers: true };
    let plane = [DmaBufPlane { fd: 1, offset: 0, stride: 0 }];
    assert_eq!(
        support.create_image_attributes(&plane, 0, 0, 0, 0).unwrap_err().message(),
        "Error: DMA-BUF import not supported"
    );
}

#[test]
fn frame_planes_come_from_its_dma_buffer() {
    let planes = extract_dmabuf_planes(&dma_frame(Some(17))).unwrap();
    assert_eq!(planes, vec![DmaBufPlane { fd: 17, offset: 64, stride: 7680 }]);
    let mut negative = dma_frame(Some(3));
    negative.stride = -1;
    assert_eq!(
        extract_dmabuf_planes(&negative).unwrap(),
        vec![DmaBufPlane { fd: 3, offset: 64, stride: u32::MAX }]
    );
    assert_eq!(
        extract_dmabuf_planes(&dma_frame(None)).unwrap_err().message(),
        "Error: No DMA-BUF file descriptor in frame"
    );
}

#[test]
fn captured_frame_is_imported_as_argb_in_its_own_size() {
    let support = DmaBufSupport { import: true, modifiers: true };
    assert_eq!(
        egl_img_from_dmabuf(&support, &dma_frame(Some(17))).unwrap(),
        vec![
            0x3271, 0x3432_5241, 0x3057, 1920, 0x3056, 1080, 0x3272, 17, 0x3273, 64, 0x3274, 7680,
            0x3443, 0x0060_6015, 0x3444, 0x0300_0000, 0x3038
        ]
    );
    assert_eq!(
        egl_img_from_dmabuf(&support, &dma_frame(None)).unwrap_err().message(),
        "Error: No DMA-BUF file descriptor in frame"
    );
    let unable = DmaBufSupport { import: false, modifiers: false };
    assert_eq!(
        egl_img_from_dmabuf(&unable, &dma_frame(Some(17))).unwrap_err().message(),
        "Error: DMA-BUF import not supported"
    );
    assert_eq!(
        egl_img_from_dmabuf(&unable, &dma_frame(None)).unwrap_err().message(),
        "Error: No DMA-BUF file descriptor in frame"
    );
}

#[test]
fn quality_presets_tune_the_codecs() {
    assert_eq!(
        as_pairs(&get_encoder_params(QualityPreset::Low)),
        vec![("vsync", "vfr"), ("rc", "vbr"), ("tune", "hq"), ("preset", "p2"), ("cq", "30"), ("b:v", "20M")]
    );
    assert_eq!(
        as_pairs(&get_encoder_params(QualityPreset::Medium)),
        vec![("vsync", "vfr"), ("rc", "vbr"), ("tune", "hq"), ("preset", "p4"), ("cq", "25"), ("b:v", "40M")]
    );
    assert_eq!(
        as_pairs(&get_encoder_params(QualityPreset::High)),
        vec![("vsync", "vfr"), ("rc", "vbr"), ("tune", "hq"), ("preset", "p7"), ("cq", "20"), ("b:v", "80M")]
    );
    assert_eq!(
        as_pairs(&get_encoder_params(QualityPreset::Ultra)),
        vec![("vsync", "vfr"), ("rc", "vbr"), ("tune", "hq"), ("preset", "p7"), ("cq", "15"), ("b:v", "120M")]
    );
    let vaapi = waycap_rs::encoders::vaapi_encoder::get_encoder_params;
    assert_eq!(as_pairs(&vaapi(QualityPreset::Low)), vec![("vsync", "vfr"), ("rc", "VBR"), ("qp", "30")]);
    assert_eq!(as_pairs(&vaapi(QualityPreset::Medium)), vec![("vsync", "vfr"), ("rc", "VBR"), ("qp", "25")]);
    assert_eq!(as_pairs(&vaapi(QualityPreset::High)), vec![("vsync", "vfr"), ("rc", "VBR"), ("qp", "20")]);
    assert_eq!(as_pairs(&vaapi(QualityPreset::Ultra)), vec![("vsync", "vfr"), ("rc", "VBR"), ("qp", "15")]);
}

#[test]
fn encoded_video_frame_defaults_missing_stamps_to_zero() {
    let frame = EncodedVideoFrame::from_packet(vec![1, 2, 3], true, Some(40), None);
    assert_eq!(frame.data, vec![1, 2, 3]);
    assert!(frame.is_keyframe);
    assert_eq!((frame.pts, frame.dts), (40, 0));
    let other = EncodedVideoFrame::from_packet(vec![], false, None, Some(-3));
    assert!(!other.is_keyframe);
    assert_eq!((other.pts, other.dts), (0, -3));
}
