//! Mapping of the bitstream decoder's pixel-format, colour-range and
//! colour-space codes into canonical video metadata.

use vstd::prelude::*;

verus! {

/// Pixel layout code that the bitstream decoder attaches to a decoded image.
#[derive(Clone, Copy, Debug, PartialEq, Eq, Structural)]
pub enum VpxImgFmt {
    Undefined,
    YV12,
    I420,
    I422,
    I444,
    I440,
    NV12,
    I42016,
    I42216,
    I44416,
    I44016,
}

/// Colour range code of a decoded image.
#[derive(Clone, Copy, Debug, PartialEq, Eq, Structural)]
pub enum VpxColorRange {
    StudioRange,
    FullRange,
}

/// Colour space code of a decoded image.
#[derive(Clone, Copy, Debug, PartialEq, Eq, Structural)]
pub enum VpxColorSpace {
    Unknown,
    BT601,
    BT709,
    SMPTE170,
    SMPTE240,
    BT2020,
    Reserved,
    SRGB,
}

/// Canonical pixel formats that a decoded image can be mapped to.
#[derive(Clone, Copy, Debug, PartialEq, Eq, Structural)]
pub enum PixelFormat {
    I420,
    I422,
    I444,
    NV12,
    YV12,
    I010,
    I210,
    I410,
    I012,
    I212,
    I412,
}

/// Canonical colour range.
#[derive(Clone, Copy, Debug, PartialEq, Eq, Structural)]
pub enum ColorRange {
    Unspecified,
    Video,
    Full,
}

/// Canonical colour matrix.
#[derive(Clone, Copy, Debug, PartialEq, Eq, Structural)]
pub enum ColorMatrix {
    Identity,
    BT709,
    Unspecified,
    Reserved,
    BT470BG,
    SMPTE170M,
    SMPTE240M,
    BT2020NCL,
}

impl VpxImgFmt {
    /// The numeric code of the layout: a small index combined with the
    /// planar (0x100), swapped-chroma (0x200) and 16-bit-container (0x800)
    /// flags.
    pub open spec fn spec_code(self) -> u32 {
        match self {
            VpxImgFmt::Undefined => 0,
            VpxImgFmt::YV12 => 0x301,
            VpxImgFmt::I420 => 0x102,
            VpxImgFmt::I422 => 0x105,
            VpxImgFmt::I444 => 0x106,
            VpxImgFmt::I440 => 0x107,
            VpxImgFmt::NV12 => 0x109,
            VpxImgFmt::I42016 => 0x902,
            VpxImgFmt::I42216 => 0x905,
            VpxImgFmt::I44416 => 0x906,
            VpxImgFmt::I44016 => 0x907,
        }
    }

    /// The numeric code of the layout, as carried in diagnostics.
    pub fn code(self) -> (r: u32)
        ensures
            r == self.spec_code(),
    {
        match self {
            VpxImgFmt::Undefined => 0,
            VpxImgFmt::YV12 => 0x301,
            VpxImgFmt::I420 => 0x102,
            VpxImgFmt::I422 => 0x105,
            VpxImgFmt::I444 => 0x106,
            VpxImgFmt::I440 => 0x107,
            VpxImgFmt::NV12 => 0x109,
            VpxImgFmt::I42016 => 0x902,
            VpxImgFmt::I42216 => 0x905,
            VpxImgFmt::I44416 => 0x906,
            VpxImgFmt::I44016 => 0x907,
        }
    }

    /// The layout with the given numeric code, if there is one.
    pub fn from_code(code: u32) -> (r: Option<VpxImgFmt>)
        ensures
            match r {
                Some(f) => f.spec_code() == code,
                None => forall|f: VpxImgFmt| f.spec_code() != code,
            },
    {
        if code == 0 {
            Some(VpxImgFmt::Undefined)
        } else if code == 0x301 {
            Some(VpxImgFmt::YV12)
        } else if code == 0x102 {
            Some(VpxImgFmt::I420)
        } else if code == 0x105 {
            Some(VpxImgFmt::I422)
        } else if code == 0x106 {
            Some(VpxImgFmt::I444)
        } else if code == 0x107 {
            Some(VpxImgFmt::I440)
        } else if code == 0x109 {
            Some(VpxImgFmt::NV12)
        } else if code == 0x902 {
            Some(VpxImgFmt::I42016)
        } else if code == 0x905 {
            Some(VpxImgFmt::I42216)
        } else if code == 0x906 {
            Some(VpxImgFmt::I44416)
        } else if code == 0x907 {
            Some(VpxImgFmt::I44016)
        } else {
            None
        }
    }
}

/// The lookup table from (layout, bit depth) to canonical pixel format.
///
/// The 8-bit layouts map regardless of the reported depth; the layouts in
/// 16-bit containers map only at depth 10 or 12; every other pair has no
/// canonical format.
pub open spec fn pixel_format_of(fmt: VpxImgFmt, depth: u32) -> Option<PixelFormat> {
    match fmt {
        VpxImgFmt::YV12 => Some(PixelFormat::YV12),
        VpxImgFmt::I420 => Some(PixelFormat::I420),
        VpxImgFmt::I422 => Some(PixelFormat::I422),
        VpxImgFmt::I444 => Some(PixelFormat::I444),
        VpxImgFmt::NV12 => Some(PixelFormat::NV12),
        VpxImgFmt::I42016 => if depth == 10 {
            Some(PixelFormat::I010)
        } else if depth == 12 {
            Some(PixelFormat::I012)
        } else {
            None
        },
        VpxImgFmt::I42216 => if depth == 10 {
            Some(PixelFormat::I210)
        } else if depth == 12 {
            Some(PixelFormat::I212)
        } else {
            None
        },
        VpxImgFmt::I44416 => if depth == 10 {
            Some(PixelFormat::I410)
        } else if depth == 12 {
            Some(PixelFormat::I412)
        } else {
            None
        },
        VpxImgFmt::Undefined | VpxImgFmt::I440 | VpxImgFmt::I44016 => None,
    }
}

/// The canonical colour range of a colour range code.
pub open spec fn color_range_of(color_range: VpxColorRange) -> ColorRange {
    match color_range {
        VpxColorRange::StudioRange => ColorRange::Video,
        VpxColorRange::FullRange => ColorRange::Full,
    }
}

/// The canonical colour matrix of a colour space code.
pub open spec fn color_matrix_of(color_space: VpxColorSpace) -> ColorMatrix {
    match color_space {
        VpxColorSpace::Unknown => ColorMatrix::Unspecified,
        VpxColorSpace::BT601 => ColorMatrix::BT470BG,
        VpxColorSpace::BT709 => ColorMatrix::BT709,
        VpxColorSpace::SMPTE170 => ColorMatrix::SMPTE170M,
        VpxColorSpace::SMPTE240 => ColorMatrix::SMPTE240M,
        VpxColorSpace::BT2020 => ColorMatrix::BT2020NCL,
        VpxColorSpace::Reserved => ColorMatrix::Reserved,
        VpxColorSpace::SRGB => ColorMatrix::Identity,
    }
}

/// Maps a decoded image's layout and bit depth; `None` when the pair
/// has no canonical format.
pub fn vpx_img_fmt_to_pixel_format(fmt: VpxImgFmt, depth: u32) -> (r: Option<PixelFormat>)
    ensures
        r == pixel_format_of(fmt, depth),
{
    match fmt {
        VpxImgFmt::YV12 => Some(PixelFormat::YV12),
        VpxImgFmt::I420 => Some(PixelFormat::I420),
        VpxImgFmt::I422 => Some(PixelFormat::I422),
        VpxImgFmt::I444 => Some(PixelFormat::I444),
        VpxImgFmt::NV12 => Some(PixelFormat::NV12),
        VpxImgFmt::I42016 => match depth {
            10 => Some(PixelFormat::I010),
            12 => Some(PixelFormat::I012),
            _ => None,
        },
        VpxImgFmt::I42216 => match depth {
            10 => Some(PixelFormat::I210),
            12 => Some(PixelFormat::I212),
            _ => None,
        },
        VpxImgFmt::I44416 => match depth {
            10 => Some(PixelFormat::I410),
            12 => Some(PixelFormat::I412),
            _ => None,
        },
        _ => None,
    }
}

/// Maps a colour range code.
pub fn vpx_color_range_to_color_range(color_range: VpxColorRange) -> (r: ColorRange)
    ensures
        r == color_range_of(color_range),
{
    match color_range {
        VpxColorRange::StudioRange => ColorRange::Video,
        VpxColorRange::FullRange => ColorRange::Full,
    }
}

/// Maps a colour space code.
pub fn vpx_color_space_to_color_matrix(color_space: VpxColorSpace) -> (r: ColorMatrix)
    ensures
        r == color_matrix_of(color_space),
{
    match color_space {
        VpxColorSpace::Unknown => ColorMatrix::Unspecified,
        VpxColorSpace::BT601 => ColorMatrix::BT470BG,
        VpxColorSpace::BT709 => ColorMatrix::BT709,
        VpxColorSpace::SMPTE170 => ColorMatrix::SMPTE170M,
        VpxColorSpace::SMPTE240 => ColorMatrix::SMPTE240M,
        VpxColorSpace::BT2020 => ColorMatrix::BT2020NCL,
        VpxColorSpace::Reserved => ColorMatrix::Reserved,
        VpxColorSpace::SRGB => ColorMatrix::Identity,
    }
}

/// The pairs that have a canonical format are exactly these: any of the
/// five 8-bit layouts at any depth, and any of the three layouts in 16-bit
/// containers at depth 10 or 12.
pub proof fn lemma_supported_pairs(fmt: VpxImgFmt, depth: u32)
    ensures
        pixel_format_of(fmt, depth) is Some <==> {
            ||| fmt == VpxImgFmt::YV12
            ||| fmt == VpxImgFmt::I420
            ||| fmt == VpxImgFmt::I422
            ||| fmt == VpxImgFmt::I444
            ||| fmt == VpxImgFmt::NV12
            ||| ((fmt == VpxImgFmt::I42016 || fmt == VpxImgFmt::I42216 || fmt == VpxImgFmt::I44416)
                && (depth == 10 || depth == 12))
        },
{
}

/// The 8-bit layouts do not depend on the reported depth.
pub proof fn lemma_eight_bit_layouts_ignore_depth(fmt: VpxImgFmt, depth: u32, other: u32)
    requires
        fmt == VpxImgFmt::YV12 || fmt == VpxImgFmt::I420 || fmt == VpxImgFmt::I422 || fmt
            == VpxImgFmt::I444 || fmt == VpxImgFmt::NV12,
    ensures
        pixel_format_of(fmt, depth) == pixel_format_of(fmt, other),
{
}

/// Distinct colour range codes have distinct canonical ranges, and none
/// of them is unspecified.
pub proof fn lemma_color_ranges_distinct(a: VpxColorRange, b: VpxColorRange)
    ensures
        color_range_of(a) == color_range_of(b) ==> a == b,
        color_range_of(a) != ColorRange::Unspecified,
{
}

/// Distinct colour space codes have distinct canonical matrices, and only
/// the unknown colour space is unspecified.
pub proof fn lemma_color_matrices_distinct(a: VpxColorSpace, b: VpxColorSpace)
    ensures
        color_matrix_of(a) == color_matrix_of(b) ==> a == b,
        color_matrix_of(a) == ColorMatrix::Unspecified <==> a == VpxColorSpace::Unknown,
{
}

/// Distinct layouts have distinct codes.
pub proof fn lemma_codes_distinct(a: VpxImgFmt, b: VpxImgFmt)
    ensures
        a.spec_code() == b.spec_code() ==> a == b,
{
}

} // verus!
