use std::sync::Arc;

use media_core::buffer::BufferPool;
use vpx_decoder::error::Error;
use vpx_decoder::format::{
    ColorMatrix, ColorRange, PixelFormat, VpxColorRange, VpxColorSpace, VpxImgFmt,
};
use vpx_decoder::image::{VPXImage, VideoFrameDescriptor};

fn sample_image(fmt: VpxImgFmt, depth: u32, width: u32, height: u32) -> VPXImage {
    VPXImage {
        fmt,
        bit_depth: depth,
        d_w: width,
        d_h: height,
        range: VpxColorRange::FullRange,
        cs: VpxColorSpace::BT709,
        planes: [0; 4],
        stride: [0; 4],
        fb_priv: 0,
    }
}

#[test]
fn descriptor_round_trip() {
    let img = sample_image(VpxImgFmt::I420, 8, 1920, 1080);
    let desc = img.descriptor().unwrap();
    assert_eq!(desc.format, PixelFormat::I420);
    assert_eq!(desc.width, 1920);
    assert_eq!(desc.height, 1080);
    assert_eq!(desc.color_range, ColorRange::Full);
    assert_eq!(desc.color_matrix, ColorMatrix::BT709);
}

#[test]
fn descriptor_of_studio_range_image() {
    let mut img = sample_image(VpxImgFmt::I42016, 10, 640, 480);
    img.range = VpxColorRange::StudioRange;
    img.cs = VpxColorSpace::BT2020;
    assert_eq!(
        img.descriptor(),
        Ok(VideoFrameDescriptor {
            format: PixelFormat::I010,
            width: 640,
            height: 480,
            color_range: ColorRange::Video,
            color_matrix: ColorMatrix::BT2020NCL,
        })
    );
}

#[test]
fn descriptor_rejects_unknown_layout() {
    let img = sample_image(VpxImgFmt::I440, 8, 640, 480);
    assert_eq!(img.descriptor(), Err(Error::UnsupportedFormat(0x107)));
    let img = sample_image(VpxImgFmt::I42016, 8, 640, 480);
    assert_eq!(img.descriptor(), Err(Error::UnsupportedFormat(0x902)));
    let img = sample_image(VpxImgFmt::Undefined, 8, 0, 0);
    assert_eq!(img.descriptor(), Err(Error::UnsupportedFormat(0)));
}

#[test]
fn descriptor_rejects_empty_image() {
    assert_eq!(sample_image(VpxImgFmt::I420, 8, 0, 480).descriptor(), Err(Error::InvalidDimensions));
    assert_eq!(sample_image(VpxImgFmt::I420, 8, 640, 0).descriptor(), Err(Error::InvalidDimensions));
}

#[test]
fn try_new_defaults() {
    assert_eq!(
        VideoFrameDescriptor::try_new(PixelFormat::NV12, 2, 2),
        Ok(VideoFrameDescriptor {
            format: PixelFormat::NV12,
            width: 2,
            height: 2,
            color_range: ColorRange::Unspecified,
            color_matrix: ColorMatrix::Identity,
        })
    );
    assert_eq!(VideoFrameDescriptor::try_new(PixelFormat::NV12, 0, 2), Err(Error::InvalidDimensions));
}

#[test]
fn has_frame_buffer_follows_private_handle() {
    let mut img = sample_image(VpxImgFmt::I420, 8, 16, 16);
    assert!(!img.has_frame_buffer());
    img.fb_priv = 0x1000;
    assert!(img.has_frame_buffer());
}

#[test]
fn frame_layout_of_i420() {
    let mut img = sample_image(VpxImgFmt::I420, 8, 1920, 1080);
    img.stride = [1920, 960, 960, 0];
    let (desc, planes) = img.convert_to_frame().ok().unwrap();
    assert_eq!(desc, img.descriptor().unwrap());
    assert_eq!(planes.to_vec(), vec![(2073600, 1920), (518400, 960), (518400, 960)]);
}

#[test]
fn frame_layout_rounds_chroma_rows_up() {
    let mut img = sample_image(VpxImgFmt::YV12, 8, 5, 5);
    img.stride = [8, 4, 4, 0];
    let (_, planes) = img.convert_to_frame().ok().unwrap();
    assert_eq!(planes.to_vec(), vec![(40, 8), (12, 4), (12, 4)]);
}

#[test]
fn frame_layout_of_nv12_has_two_planes() {
    let mut img = sample_image(VpxImgFmt::NV12, 8, 64, 32);
    img.stride = [64, 64, 7, 7];
    let (_, planes) = img.convert_to_frame().ok().unwrap();
    assert_eq!(planes.len(), 2);
    assert_eq!(planes.to_vec(), vec![(2048, 64), (1024, 64)]);
}

#[test]
fn frame_layout_keeps_rows_without_vertical_subsampling() {
    for (fmt, depth) in [
        (VpxImgFmt::I422, 8),
        (VpxImgFmt::I444, 8),
        (VpxImgFmt::I42216, 10),
        (VpxImgFmt::I42216, 12),
        (VpxImgFmt::I44416, 10),
        (VpxImgFmt::I44416, 12),
    ] {
        let mut img = sample_image(fmt, depth, 32, 9);
        img.stride = [64, 32, 32, 0];
        let (_, planes) = img.convert_to_frame().ok().unwrap();
        assert_eq!(planes.to_vec(), vec![(576, 64), (288, 32), (288, 32)]);
    }
}

#[test]
fn frame_layout_halves_rows_of_high_bit_depth_420() {
    for depth in [10, 12] {
        let mut img = sample_image(VpxImgFmt::I42016, depth, 32, 9);
        img.stride = [64, 32, 32, 0];
        let (_, planes) = img.convert_to_frame().ok().unwrap();
        assert_eq!(planes.to_vec(), vec![(576, 64), (160, 32), (160, 32)]);
    }
}

#[test]
fn frame_layout_of_largest_sizes() {
    let mut img = sample_image(VpxImgFmt::I444, 8, 1, u32::MAX - 1);
    img.stride = [u32::MAX, 1, 0, 0];
    let (_, planes) = img.convert_to_frame().ok().unwrap();
    assert_eq!(
        planes.to_vec(),
        vec![(18446744060824649730, u32::MAX), (4294967294, 1), (0, 0)]
    );
    let img = sample_image(VpxImgFmt::I444, 8, 1, u32::MAX);
    assert!(matches!(img.convert_to_frame(), Err(Error::InvalidDimensions)));
    let mut img = sample_image(VpxImgFmt::I420, 8, 1, u32::MAX - 2);
    img.stride = [1, 1, 1, 0];
    let (_, planes) = img.convert_to_frame().ok().unwrap();
    assert_eq!(planes.to_vec(), vec![(4294967293, 1), (2147483647, 1), (2147483647, 1)]);
    for height in [u32::MAX - 1, u32::MAX] {
        let img = sample_image(VpxImgFmt::I420, 8, 1, height);
        assert!(matches!(img.convert_to_frame(), Err(Error::InvalidDimensions)));
        let img = sample_image(VpxImgFmt::NV12, 8, 1, height);
        assert!(matches!(img.convert_to_frame(), Err(Error::InvalidDimensions)));
    }
}

#[test]
fn frame_layout_passes_descriptor_errors_on() {
    let img = sample_image(VpxImgFmt::I44016, 10, 16, 16);
    assert!(matches!(img.convert_to_frame(), Err(Error::UnsupportedFormat(0x907))));
    let img = sample_image(VpxImgFmt::I420, 8, 0, 16);
    assert!(matches!(img.convert_to_frame(), Err(Error::InvalidDimensions)));
}

#[test]
fn plane_offsets_inside_buffer() {
    let mut img = sample_image(VpxImgFmt::I420, 8, 16, 16);
    img.planes = [1000, 1256, 1320, 0];
    img.stride = [16, 8, 8, 0];
    let desc = img.descriptor().unwrap();
    let table = img.plane_offsets(&desc, 1000, 384).ok().unwrap();
    assert_eq!(table.to_vec(), vec![(0, 16), (256, 8), (320, 8)]);
    let table = img.plane_offsets(&desc, 1000, 321).ok().unwrap();
    assert_eq!(table.to_vec(), vec![(0, 16), (256, 8), (320, 8)]);
}

#[test]
fn plane_offsets_outside_buffer() {
    let mut img = sample_image(VpxImgFmt::I420, 8, 16, 16);
    img.planes = [1000, 1256, 1320, 0];
    img.stride = [16, 8, 8, 0];
    let desc = img.descriptor().unwrap();
    assert!(matches!(img.plane_offsets(&desc, 1000, 320), Err(Error::IntegrityError)));
    assert!(matches!(img.plane_offsets(&desc, 1001, 4096), Err(Error::IntegrityError)));
    assert!(matches!(img.plane_offsets(&desc, 1000, 0), Err(Error::IntegrityError)));
}

#[test]
fn plane_offsets_ignore_unused_planes() {
    let mut img = sample_image(VpxImgFmt::NV12, 8, 16, 16);
    img.planes = [500, 756, 0, 0];
    img.stride = [16, 16, 0, 0];
    let desc = img.descriptor().unwrap();
    let table = img.plane_offsets(&desc, 500, 384).ok().unwrap();
    assert_eq!(table.to_vec(), vec![(0, 16), (256, 16)]);
}

#[test]
fn shared_buffer_conversion() {
    let pool = BufferPool::new(4096);
    let buffer = pool.get_buffer();
    let base = buffer.data().as_ptr().addr();
    let mut img = sample_image(VpxImgFmt::I420, 8, 32, 32);
    img.fb_priv = base;
    img.planes = [base, base + 1024, base + 4095, 0];
    img.stride = [32, 16, 16, 0];
    assert_eq!(Arc::strong_count(&buffer), 1);
    let (shared, planes, desc) = img.convert_to_buffer(&buffer).ok().unwrap();
    assert!(Arc::ptr_eq(&shared, &buffer));
    assert_eq!(Arc::strong_count(&buffer), 2);
    assert_eq!(planes.to_vec(), vec![(0, 32), (1024, 16), (4095, 16)]);
    assert_eq!(desc, img.descriptor().unwrap());
}

#[test]
fn shared_buffer_conversion_rejects_plane_at_end_of_buffer() {
    let pool = BufferPool::new(4096);
    let buffer = pool.get_buffer();
    let length = buffer.len();
    assert_eq!(length, 4096);
    let base = buffer.data().as_ptr().addr();
    let mut img = sample_image(VpxImgFmt::I420, 8, 32, 32);
    img.fb_priv = base;
    img.planes = [base, base + 1024, base + length, 0];
    img.stride = [32, 16, 16, 0];
    let before = Arc::strong_count(&buffer);
    let outcome = img.convert_to_buffer(&buffer);
    assert!(matches!(outcome, Err(Error::IntegrityError)));
    assert_eq!(Arc::strong_count(&buffer), before);
}

#[test]
fn shared_buffer_conversion_rejects_plane_before_buffer() {
    let pool = BufferPool::new(4096);
    let buffer = pool.get_buffer();
    let base = buffer.data().as_ptr().addr();
    let mut img = sample_image(VpxImgFmt::I420, 8, 32, 32);
    img.fb_priv = base;
    img.planes = [base - 1, base, base, 0];
    let before = Arc::strong_count(&buffer);
    assert!(matches!(img.convert_to_buffer(&buffer), Err(Error::IntegrityError)));
    assert_eq!(Arc::strong_count(&buffer), before);
}

#[test]
fn shared_buffer_conversion_reports_format_first() {
    let pool = BufferPool::new(64);
    let buffer = pool.get_buffer();
    let mut img = sample_image(VpxImgFmt::I440, 8, 32, 32);
    img.fb_priv = 1;
    let before = Arc::strong_count(&buffer);
    assert!(matches!(img.convert_to_buffer(&buffer), Err(Error::UnsupportedFormat(0x107))));
    assert_eq!(Arc::strong_count(&buffer), before);
}
