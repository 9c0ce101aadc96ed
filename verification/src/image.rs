//! The image adapter: one decoded image of the bitstream decoder, its
//! canonical descriptor, the layout of its planes, and the offset table of
//! a zero-copy image within its backing buffer.

use std::sync::Arc;

use media_core::buffer::Buffer;
use vstd::prelude::*;

use crate::error::Error;
use crate::format::{
    color_matrix_of, color_range_of, pixel_format_of, vpx_color_range_to_color_range,
    vpx_color_space_to_color_matrix, vpx_img_fmt_to_pixel_format, ColorMatrix, ColorRange,
    PixelFormat, VpxColorRange, VpxColorSpace, VpxImgFmt,
};
use crate::media::{
    buffer_address, buffer_len, buffer_length, calc_plane_height, components,
    has_half_height_chroma, max_image_height, plane_count, plane_height, share_buffer,
};
use crate::planes::{plane_table_push, plane_table_with_capacity, BufferPlaneVec};

verus! {

/// The canonical description of a video frame.
#[derive(Clone, Copy, Debug, PartialEq, Eq, Structural)]
pub struct VideoFrameDescriptor {
    pub format: PixelFormat,
    pub width: u32,
    pub height: u32,
    pub color_range: ColorRange,
    pub color_matrix: ColorMatrix,
}

impl VideoFrameDescriptor {
    /// The descriptor of a frame of the given format and size, with
    /// unspecified colour range and the identity colour matrix; a zero
    /// width or height is refused.
    pub open spec fn spec_try_new(
        format: PixelFormat,
        width: u32,
        height: u32,
    ) -> Result<VideoFrameDescriptor, Error> {
        if width == 0 || height == 0 {
            Err(Error::InvalidDimensions)
        } else {
            Ok(
                VideoFrameDescriptor {
                    format,
                    width,
                    height,
                    color_range: ColorRange::Unspecified,
                    color_matrix: ColorMatrix::Identity,
                },
            )
        }
    }

    /// Builds the descriptor of a frame of the given format and size.
    pub fn try_new(
        format: PixelFormat,
        width: u32,
        height: u32,
    ) -> (r: Result<VideoFrameDescriptor, Error>)
        ensures
            r == Self::spec_try_new(format, width, height),
    {
        if width == 0 || height == 0 {
            return Err(Error::InvalidDimensions);
        }
        Ok(
            VideoFrameDescriptor {
                format,
                width,
                height,
                color_range: ColorRange::Unspecified,
                color_matrix: ColorMatrix::Identity,
            },
        )
    }
}

/// One decoded image as the bitstream decoder describes it: geometry,
/// layout code, bit depth, colour codes, the address and row stride of
/// each plane, and the private handle, which is zero unless the image's
/// memory came from the frame-buffer bridge.
#[derive(Clone, Copy, Debug)]
pub struct VPXImage {
    pub fmt: VpxImgFmt,
    pub bit_depth: u32,
    pub d_w: u32,
    pub d_h: u32,
    pub range: VpxColorRange,
    pub cs: VpxColorSpace,
    pub planes: [usize; 4],
    pub stride: [u32; 4],
    pub fb_priv: usize,
}

/// A plane table, or the error in its place, with the table as its entries.
pub open spec fn table_view(r: Result<BufferPlaneVec, Error>) -> Result<Seq<(usize, u32)>, Error> {
    match r {
        Ok(table) => Ok(table@),
        Err(e) => Err(e),
    }
}

/// What a conversion to a frame layout returned, with the table as its
/// entries.
pub open spec fn frame_layout_view(
    r: Result<(VideoFrameDescriptor, BufferPlaneVec), Error>,
) -> Result<(VideoFrameDescriptor, Seq<(usize, u32)>), Error> {
    match r {
        Ok((desc, table)) => Ok((desc, table@)),
        Err(e) => Err(e),
    }
}

/// What a conversion to a shared buffer returned, apart from the buffer:
/// the descriptor and the offset table, or the error.
pub open spec fn shared_buffer_view(
    r: Result<(Arc<Buffer>, BufferPlaneVec, VideoFrameDescriptor), Error>,
) -> Result<(VideoFrameDescriptor, Seq<(usize, u32)>), Error> {
    match r {
        Ok((_, table, desc)) => Ok((desc, table@)),
        Err(e) => Err(e),
    }
}

impl VPXImage {
    /// True iff the private handle is not null.
    pub open spec fn spec_has_frame_buffer(&self) -> bool {
        self.fb_priv != 0
    }

    /// The descriptor of the image, or the reason why it has none: first
    /// the layout and depth must have a canonical format, then the size
    /// must not be zero.
    pub open spec fn spec_descriptor(&self) -> Result<VideoFrameDescriptor, Error> {
        match pixel_format_of(self.fmt, self.bit_depth) {
            None => Err(Error::UnsupportedFormat(self.fmt.spec_code())),
            Some(format) => if self.d_w == 0 || self.d_h == 0 {
                Err(Error::InvalidDimensions)
            } else {
                Ok(
                    VideoFrameDescriptor {
                        format,
                        width: self.d_w,
                        height: self.d_h,
                        color_range: color_range_of(self.range),
                        color_matrix: color_matrix_of(self.cs),
                    },
                )
            },
        }
    }

    /// The number of bytes of one plane: its stride times its number of
    /// rows.
    pub open spec fn plane_size(&self, desc: VideoFrameDescriptor, plane: int) -> int {
        self.stride[plane] * plane_height(desc.format, plane as usize, desc.height)
    }

    /// True iff the size of every plane is a `usize`.
    pub open spec fn plane_sizes_fit(&self, desc: VideoFrameDescriptor) -> bool {
        forall|i: int|
            0 <= i < plane_count(desc.format) ==> #[trigger] self.plane_size(desc, i) <= usize::MAX
    }

    /// The byte length and stride of each plane.
    pub open spec fn spec_plane_sizes(&self, desc: VideoFrameDescriptor) -> Seq<(usize, u32)> {
        Seq::new(
            plane_count(desc.format) as nat,
            |i: int| (self.plane_size(desc, i) as usize, self.stride[i]),
        )
    }

    /// The layout from which a self-contained frame is copied, or the
    /// reason why there is none: the descriptor's error; or
    /// `InvalidDimensions` for a height above `max_image_height`, of which
    /// the rows of the chroma planes cannot be computed, and for a plane
    /// whose size is no `usize`.
    pub open spec fn spec_convert_to_frame(
        &self,
    ) -> Result<(VideoFrameDescriptor, Seq<(usize, u32)>), Error> {
        match self.spec_descriptor() {
            Err(e) => Err(e),
            Ok(desc) => if desc.height > max_image_height(desc.format) || !self.plane_sizes_fit(
                desc,
            ) {
                Err(Error::InvalidDimensions)
            } else {
                Ok((desc, self.spec_plane_sizes(desc)))
            },
        }
    }

    /// True iff each plane of the image starts inside a buffer of `len`
    /// bytes at address `base`.
    pub open spec fn planes_within(&self, desc: VideoFrameDescriptor, base: usize, len: usize) -> bool {
        forall|i: int|
            0 <= i < plane_count(desc.format) ==> base <= #[trigger] self.planes[i] && self.planes[i]
                - base < len
    }

    /// The offset of each plane from `base`, with its stride.
    pub open spec fn plane_offsets_from(
        &self,
        desc: VideoFrameDescriptor,
        base: usize,
    ) -> Seq<(usize, u32)> {
        Seq::new(
            plane_count(desc.format) as nat,
            |i: int| ((self.planes[i] - base) as usize, self.stride[i]),
        )
    }

    /// The offset table of the image within a buffer of `len` bytes at
    /// address `base`, or an integrity error where a plane starts outside
    /// the buffer.
    pub open spec fn spec_plane_offsets(
        &self,
        desc: VideoFrameDescriptor,
        base: usize,
        len: usize,
    ) -> Result<Seq<(usize, u32)>, Error> {
        if self.planes_within(desc, base, len) {
            Ok(self.plane_offsets_from(desc, base))
        } else {
            Err(Error::IntegrityError)
        }
    }

    /// The zero-copy conversion for a backing buffer of `len` bytes at
    /// address `base`: the descriptor's error comes first, then the
    /// validation of the offsets.
    pub open spec fn spec_convert_to_buffer(
        &self,
        base: usize,
        len: usize,
    ) -> Result<(VideoFrameDescriptor, Seq<(usize, u32)>), Error> {
        match self.spec_descriptor() {
            Err(e) => Err(e),
            Ok(desc) => match self.spec_plane_offsets(desc, base, len) {
                Err(e) => Err(e),
                Ok(offsets) => Ok((desc, offsets)),
            },
        }
    }

    /// Tells whether the image's memory came from the frame-buffer bridge.
    pub fn has_frame_buffer(&self) -> (r: bool)
        ensures
            r == self.spec_has_frame_buffer(),
    {
        self.fb_priv != 0
    }

    /// Looks the format up and fills in geometry and colour
    /// metadata.
    pub fn descriptor(&self) -> (r: Result<VideoFrameDescriptor, Error>)
        ensures
            r == self.spec_descriptor(),
    {
        let pixel_format = match vpx_img_fmt_to_pixel_format(self.fmt, self.bit_depth) {
            Some(format) => format,
            None => {
                return Err(Error::UnsupportedFormat(self.fmt.code()));
            },
        };
        match VideoFrameDescriptor::try_new(pixel_format, self.d_w, self.d_h) {
            Ok(base) => Ok(
                VideoFrameDescriptor {
                    format: base.format,
                    width: base.width,
                    height: base.height,
                    color_range: vpx_color_range_to_color_range(self.range),
                    color_matrix: vpx_color_space_to_color_matrix(self.cs),
                },
            ),
            Err(e) => Err(e),
        }
    }

    /// The layout from which a self-contained frame is copied: the
    /// descriptor, and for each plane the number of bytes to read at the
    /// plane's address, with the stride.
    pub fn convert_to_frame(&self) -> (r: Result<(VideoFrameDescriptor, BufferPlaneVec), Error>)
        ensures
            frame_layout_view(r) == self.spec_convert_to_frame(),
    {
        let desc = match self.descriptor() {
            Ok(desc) => desc,
            Err(e) => {
                return Err(e);
            },
        };
        let max_height = if has_half_height_chroma(desc.format) {
            u32::MAX - 2
        } else {
            u32::MAX - 1
        };
        if desc.height > max_height {
            return Err(Error::InvalidDimensions);
        }
        let planes_num: usize = components(desc.format) as usize;
        let mut buffers = plane_table_with_capacity(planes_num);
        let mut plane: usize = 0;
        while plane < planes_num
            invariant
                plane <= planes_num,
                planes_num == plane_count(desc.format),
                self.spec_descriptor() == Ok::<VideoFrameDescriptor, Error>(desc),
                desc.height <= max_image_height(desc.format),
                buffers@.len() == plane,
                forall|i: int| 0 <= i < plane ==> #[trigger] self.plane_size(desc, i) <= usize::MAX,
                forall|i: int| 0 <= i < plane ==> buffers@[i] == self.spec_plane_sizes(desc)[i],
            decreases planes_num - plane,
        {
            let height = calc_plane_height(desc.format, plane, desc.height);
            let stride = self.stride[plane];
            let size = match (stride as usize).checked_mul(height as usize) {
                Some(size) => size,
                None => {
                    assert(self.plane_size(desc, plane as int) > usize::MAX);
                    return Err(Error::InvalidDimensions);
                },
            };
            assert(size == self.plane_size(desc, plane as int));
            plane_table_push(&mut buffers, (size, stride));
            plane = plane + 1;
        }
        assert(buffers@ =~= self.spec_plane_sizes(desc));
        Ok((desc, buffers))
    }

    /// The offset table of the image within a buffer of `len` bytes at
    /// address `base`: for each plane of `desc` its offset from `base` and
    /// its stride. A plane that starts before the buffer, or at or past
    /// its end, is an integrity error, and then no table is returned.
    pub fn plane_offsets(
        &self,
        desc: &VideoFrameDescriptor,
        base: usize,
        len: usize,
    ) -> (r: Result<BufferPlaneVec, Error>)
        ensures
            table_view(r) == self.spec_plane_offsets(*desc, base, len),
    {
        let planes_num: usize = components(desc.format) as usize;
        let mut buffers = plane_table_with_capacity(planes_num);
        let mut plane: usize = 0;
        while plane < planes_num
            invariant
                plane <= planes_num,
                planes_num == plane_count(desc.format),
                buffers@.len() == plane,
                forall|i: int|
                    0 <= i < plane ==> base <= #[trigger] self.planes[i] && self.planes[i] - base
                        < len,
                forall|i: int|
                    0 <= i < plane ==> buffers@[i] == self.plane_offsets_from(*desc, base)[i],
            decreases planes_num - plane,
        {
            let address = self.planes[plane];
            if address < base || address - base >= len {
                return Err(Error::IntegrityError);
            }
            plane_table_push(&mut buffers, (address - base, self.stride[plane]));
            plane = plane + 1;
        }
        assert(buffers@ =~= self.plane_offsets_from(*desc, base));
        Ok(buffers)
    }

    /// The zero-copy conversion of an image whose memory came from the
    /// frame-buffer bridge. `buffer` is the backing buffer behind the
    /// image's private handle, borrowed: the caller keeps its own
    /// reference, whatever the outcome, and on success receives one more
    /// owner of the buffer, the offset table and the descriptor. The
    /// outcome is that of `spec_convert_to_buffer` for the buffer's length
    /// and for the address at which the buffer lies.
    pub fn convert_to_buffer(
        &self,
        buffer: &Arc<Buffer>,
    ) -> (r: Result<(Arc<Buffer>, BufferPlaneVec, VideoFrameDescriptor), Error>)
        requires
            self.spec_has_frame_buffer(),
        ensures
            r matches Ok((shared, _, _)) ==> shared == *buffer,
            exists|base: usize|
                shared_buffer_view(r) == #[trigger] self.spec_convert_to_buffer(
                    base,
                    buffer_length(**buffer),
                ),
    {
        let desc = match self.descriptor() {
            Ok(desc) => desc,
            Err(e) => {
                assert(self.spec_convert_to_buffer(0, buffer_length(**buffer)) == Err::<
                    (VideoFrameDescriptor, Seq<(usize, u32)>),
                    Error,
                >(e));
                return Err(e);
            },
        };
        let base = buffer_address(buffer);
        let len = buffer_len(buffer);
        let r = match self.plane_offsets(&desc, base, len) {
            Ok(planes) => Ok((share_buffer(buffer), planes, desc)),
            Err(e) => Err(e),
        };
        assert(shared_buffer_view(r) == self.spec_convert_to_buffer(base, len));
        r
    }
}

} // verus!
