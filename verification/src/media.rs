//! The media framework's buffers, buffer pool and pixel-format tables, as
//! far as the adapter relies on them.

use std::sync::Arc;

use media_core::buffer::{Buffer, BufferPool};
use media_core::video::PixelFormat as MediaPixelFormat;
use vstd::prelude::*;

use crate::format::PixelFormat;

verus! {

/// The framework's reference-counted memory region.
#[verifier::external_type_specification]
#[verifier::external_body]
pub struct ExBuffer(Buffer);

/// The framework's cache of memory regions of one capacity.
#[verifier::external_type_specification]
#[verifier::external_body]
pub struct ExBufferPool(BufferPool);

/// The number of bytes that a buffer exposes. A shared buffer cannot be
/// resized, so the number belongs to the buffer.
pub uninterp spec fn buffer_length(buffer: Buffer) -> usize;

/// The capacity that a pool gives to the buffers it hands out. A pool
/// keeps its capacity until it is set anew; this library keeps each pool
/// to one owner, through whom every such change goes.
pub uninterp spec fn pool_buffer_capacity(pool: BufferPool) -> usize;

/// The capacity that a pool created with a request of zero falls back to.
pub const DEFAULT_BUFFER_CAPACITY: usize = 1024;

/// The largest capacity that a buffer can be allocated with.
pub const MAX_BUFFER_CAPACITY: usize = isize::MAX as usize;

/// The number of planes of a canonical pixel format.
pub open spec fn plane_count(format: PixelFormat) -> u8 {
    if format == PixelFormat::NV12 {
        2
    } else {
        3
    }
}

/// The number of rows of one plane of an image with `height` rows: the
/// first plane has all of them, and a later plane half of them, rounded
/// up, where the format subsamples chroma vertically.
pub open spec fn plane_height(format: PixelFormat, plane: usize, height: u32) -> u32 {
    if plane > 0 && halves_chroma_rows(format) {
        ((height + 1) / 2) as u32
    } else {
        height
    }
}

/// True for the 4:2:0 formats, whose chroma planes have half the rows.
pub open spec fn halves_chroma_rows(format: PixelFormat) -> bool {
    match format {
        PixelFormat::I420
        | PixelFormat::NV12
        | PixelFormat::YV12
        | PixelFormat::I010
        | PixelFormat::I012 => true,
        _ => false,
    }
}

/// The largest height of which the rows of every plane can be computed:
/// two less than the largest `u32` for a format whose chroma planes have
/// half the rows, and one less for the others.
pub open spec fn max_image_height(format: PixelFormat) -> u32 {
    if halves_chroma_rows(format) {
        (u32::MAX - 2) as u32
    } else {
        (u32::MAX - 1) as u32
    }
}

/// Tells whether the chroma planes of a format have half the rows.
pub fn has_half_height_chroma(format: PixelFormat) -> (r: bool)
    ensures
        r == halves_chroma_rows(format),
{
    match format {
        PixelFormat::I420
        | PixelFormat::NV12
        | PixelFormat::YV12
        | PixelFormat::I010
        | PixelFormat::I012 => true,
        _ => false,
    }
}

/// Calls `media_core::video::PixelFormat::components` on the framework's
/// format of the same name. Its table gives two planes to NV12 and three
/// to the other formats that this library produces.
#[verifier::external_body]
pub(crate) fn components(format: PixelFormat) -> (n: u8)
    ensures
        n == plane_count(format),
{
    (match format {
        PixelFormat::I420 => MediaPixelFormat::I420,
        PixelFormat::I422 => MediaPixelFormat::I422,
        PixelFormat::I444 => MediaPixelFormat::I444,
        PixelFormat::NV12 => MediaPixelFormat::NV12,
        PixelFormat::YV12 => MediaPixelFormat::YV12,
        PixelFormat::I010 => MediaPixelFormat::I010,
        PixelFormat::I210 => MediaPixelFormat::I210,
        PixelFormat::I410 => MediaPixelFormat::I410,
        PixelFormat::I012 => MediaPixelFormat::I012,
        PixelFormat::I212 => MediaPixelFormat::I212,
        PixelFormat::I412 => MediaPixelFormat::I412,
    }).components()
}

/// Calls `media_core::video::PixelFormat::calc_plane_height` on the
/// framework's format of the same name. For the first plane it returns the
/// height. For a later plane it shifts the height right by the format's
/// vertical chroma shift, rounding up: it adds two to the power of the
/// shift to the height before it subtracts one and shifts, so a height
/// that this sum would exceed the largest `u32` with is left out.
#[verifier::external_body]
pub(crate) fn calc_plane_height(format: PixelFormat, plane: usize, height: u32) -> (h: u32)
    requires
        plane == 0 || height <= max_image_height(format),
    ensures
        h == plane_height(format, plane, height),
{
    (match format {
        PixelFormat::I420 => MediaPixelFormat::I420,
        PixelFormat::I422 => MediaPixelFormat::I422,
        PixelFormat::I444 => MediaPixelFormat::I444,
        PixelFormat::NV12 => MediaPixelFormat::NV12,
        PixelFormat::YV12 => MediaPixelFormat::YV12,
        PixelFormat::I010 => MediaPixelFormat::I010,
        PixelFormat::I210 => MediaPixelFormat::I210,
        PixelFormat::I410 => MediaPixelFormat::I410,
        PixelFormat::I012 => MediaPixelFormat::I012,
        PixelFormat::I212 => MediaPixelFormat::I212,
        PixelFormat::I412 => MediaPixelFormat::I412,
    }).calc_plane_height(plane, height)
}

/// Calls `media_core::buffer::Buffer::len`: the number of bytes that the
/// buffer exposes.
#[verifier::external_body]
pub(crate) fn buffer_len(buffer: &Arc<Buffer>) -> (n: usize)
    ensures
        n == buffer_length(**buffer),
{
    buffer.len()
}

/// Calls `media_core::buffer::Buffer::data` and takes the address of the
/// first byte. The bytes are handed out as a slice reference, and a
/// reference is never null. Where the allocator placed the buffer is not
/// known in advance, so nothing more is claimed of the address.
#[verifier::external_body]
pub(crate) fn buffer_address(buffer: &Arc<Buffer>) -> (addr: usize)
    ensures
        addr != 0,
{
    buffer.data().as_ptr().addr()
}

/// Calls `Arc::clone`: another owner of the same buffer.
#[verifier::external_body]
pub(crate) fn share_buffer(buffer: &Arc<Buffer>) -> (shared: Arc<Buffer>)
    ensures
        shared == *buffer,
{
    Arc::clone(buffer)
}

/// Calls `media_core::buffer::BufferPool::new`: an empty pool whose buffers
/// have the capacity asked for, or the default capacity where zero is
/// asked for.
#[verifier::external_body]
pub(crate) fn new_pool(capacity: usize) -> (pool: Arc<BufferPool>)
    ensures
        pool_buffer_capacity(*pool) == if capacity == 0 {
            DEFAULT_BUFFER_CAPACITY
        } else {
            capacity
        },
{
    BufferPool::new(capacity)
}

/// Calls `media_core::buffer::BufferPool::get_buffer_capacity`: the
/// capacity that the pool currently gives to its buffers.
#[verifier::external_body]
pub(crate) fn pool_capacity(pool: &Arc<BufferPool>) -> (n: usize)
    ensures
        n == pool_buffer_capacity(**pool),
{
    pool.get_buffer_capacity()
}

/// Calls `media_core::buffer::BufferPool::set_buffer_capacity`: the pool
/// stores the new capacity and then discards the buffers it had cached.
/// A discarded buffer whose size is the stored capacity goes back into
/// the cache, so the call would not end if it set the capacity that the
/// pool already has: that capacity is left out.
#[verifier::external_body]
pub(crate) fn set_pool_capacity(pool: &mut Arc<BufferPool>, capacity: usize)
    requires
        capacity != pool_buffer_capacity(**old(pool)),
    ensures
        pool_buffer_capacity(**final(pool)) == capacity,
{
    pool.set_buffer_capacity(capacity)
}

/// Calls `media_core::buffer::BufferPool::get_buffer`: a cached buffer of
/// the pool's capacity, or a newly allocated one, exposing exactly that
/// many bytes. The pool's capacity stays as it was. A capacity that no
/// allocation can have is left out.
#[verifier::external_body]
pub(crate) fn pool_get_buffer(pool: &mut Arc<BufferPool>) -> (buffer: Arc<Buffer>)
    requires
        pool_buffer_capacity(**old(pool)) <= MAX_BUFFER_CAPACITY,
    ensures
        buffer_length(*buffer) == pool_buffer_capacity(**old(pool)),
        pool_buffer_capacity(**final(pool)) == pool_buffer_capacity(**old(pool)),
{
    pool.get_buffer()
}

} // verus!
