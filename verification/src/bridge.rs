//! The frame-buffer bridge: the two entry points through which the
//! bitstream decoder obtains and returns backing memory from a buffer pool.

use std::sync::Arc;

use media_core::buffer::{Buffer, BufferPool};
use vstd::prelude::*;

use crate::media::{
    buffer_address, buffer_len, buffer_length, new_pool, pool_buffer_capacity, pool_capacity,
    pool_get_buffer, set_pool_capacity, DEFAULT_BUFFER_CAPACITY, MAX_BUFFER_CAPACITY,
};

verus! {

/// The buffer pool of one decoder instance, with a ledger of the buffers
/// that the bitstream decoder currently holds.
pub struct FrameBufferBridge {
    pool: Arc<BufferPool>,
    outstanding: Ghost<nat>,
}

/// What an acquire hands to the bitstream decoder: the address and size of
/// the memory, and the owner that stands behind the opaque handle. `data`
/// is the address of the first byte of `buffer`.
pub struct FrameBuffer {
    pub data: usize,
    pub size: usize,
    pub buffer: Arc<Buffer>,
}

/// The capacity that serves a request of `min_size` bytes from a pool of
/// capacity `capacity`: the pool grows to the request and never shrinks.
pub open spec fn grown_capacity(capacity: usize, min_size: usize) -> usize {
    if capacity < min_size {
        min_size
    } else {
        capacity
    }
}

/// What an acquire of at least `min_size` bytes does to a bridge. It is
/// served iff the capacity that the request needs can be allocated. A
/// request that is refused changes nothing. One that is served leaves the
/// pool at the grown capacity and hands out a buffer of exactly that many
/// bytes, never fewer than asked for, at an address that is not null,
/// which the ledger counts.
pub open spec fn acquired(
    before: FrameBufferBridge,
    min_size: usize,
    r: Option<FrameBuffer>,
    after: FrameBufferBridge,
) -> bool {
    match r {
        None => {
            &&& grown_capacity(before.capacity(), min_size) > MAX_BUFFER_CAPACITY
            &&& after.capacity() == before.capacity()
            &&& after.outstanding() == before.outstanding()
        },
        Some(fb) => {
            &&& grown_capacity(before.capacity(), min_size) <= MAX_BUFFER_CAPACITY
            &&& fb.size >= min_size
            &&& fb.size == grown_capacity(before.capacity(), min_size)
            &&& fb.size == buffer_length(*fb.buffer)
            &&& fb.data != 0
            &&& after.capacity() == fb.size
            &&& after.outstanding() == before.outstanding() + 1
        },
    }
}

/// The ledger after `n` acquires.
pub open spec fn after_acquires(outstanding: nat, n: nat) -> nat
    decreases n,
{
    if n == 0 {
        outstanding
    } else {
        after_acquires(outstanding + 1, (n - 1) as nat)
    }
}

/// The ledger after `n` releases of handles that are not null.
pub open spec fn after_releases(outstanding: nat, n: nat) -> nat
    decreases n,
{
    if n == 0 {
        outstanding
    } else {
        after_releases(released(outstanding), (n - 1) as nat)
    }
}

/// The ledger after one release of a handle that is not null.
pub open spec fn released(outstanding: nat) -> nat {
    if outstanding > 0 {
        (outstanding - 1) as nat
    } else {
        0
    }
}

impl FrameBufferBridge {
    /// The capacity of the buffers that the pool hands out.
    pub closed spec fn capacity(&self) -> usize {
        pool_buffer_capacity(*self.pool)
    }

    /// The number of buffers acquired and not yet released.
    pub closed spec fn outstanding(&self) -> nat {
        self.outstanding@
    }

    /// A fresh pool of the default capacity, with nothing outstanding.
    pub fn new() -> (bridge: Self)
        ensures
            bridge.capacity() == DEFAULT_BUFFER_CAPACITY,
            bridge.outstanding() == 0,
    {
        FrameBufferBridge { pool: new_pool(0), outstanding: Ghost(0) }
    }

    /// The capacity of the buffers that the pool hands out.
    pub fn buffer_capacity(&self) -> (n: usize)
        ensures
            n == self.capacity(),
    {
        pool_capacity(&self.pool)
    }
}

/// Acquire: serves a request of the bitstream decoder for at least
/// `min_size` bytes. The pool grows to the request if it is smaller, and a
/// buffer of the pool's capacity is handed out and entered in the ledger.
/// A request that no allocation can meet is refused with `None`, and then
/// nothing changes.
pub fn get_frame_buffer(bridge: &mut FrameBufferBridge, min_size: usize) -> (r: Option<FrameBuffer>)
    ensures
        acquired(*old(bridge), min_size, r, *final(bridge)),
{
    let capacity = pool_capacity(&bridge.pool);
    let target = if capacity < min_size {
        min_size
    } else {
        capacity
    };
    if target > MAX_BUFFER_CAPACITY {
        return None;
    }
    if capacity < min_size {
        set_pool_capacity(&mut bridge.pool, min_size);
    }
    let buffer = pool_get_buffer(&mut bridge.pool);
    let data = buffer_address(&buffer);
    let size = buffer_len(&buffer);
    bridge.outstanding = Ghost((bridge.outstanding@ + 1) as nat);
    Some(FrameBuffer { data, size, buffer })
}

/// Release: takes back what stands behind a handle of the bitstream
/// decoder and gives it up. A null handle, `None`, is a no-op. Returns
/// whether a buffer was given up.
pub fn release_frame_buffer(bridge: &mut FrameBufferBridge, buffer: Option<Arc<Buffer>>) -> (r: bool)
    ensures
        r == (buffer is Some),
        final(bridge).capacity() == old(bridge).capacity(),
        final(bridge).outstanding() == if buffer is Some {
            released(old(bridge).outstanding())
        } else {
            old(bridge).outstanding()
        },
{
    match buffer {
        Some(_held) => {
            bridge.outstanding = Ghost(released(bridge.outstanding@));
            true
        },
        None => false,
    }
}

/// Acquire and release are symmetric: after `n` acquires followed by `n`
/// releases the ledger is back where it started.
pub proof fn lemma_acquire_release_symmetry(outstanding: nat, n: nat)
    ensures
        after_releases(after_acquires(outstanding, n), n) == outstanding,
    decreases n,
{
    if n > 0 {
        lemma_acquires_shift(outstanding, (n - 1) as nat);
        lemma_acquire_release_symmetry(outstanding, (n - 1) as nat);
    }
}

/// One more acquire before `n` acquires is one more after them.
pub proof fn lemma_acquires_shift(outstanding: nat, n: nat)
    ensures
        after_acquires(outstanding + 1, n) == after_acquires(outstanding, n) + 1,
    decreases n,
{
    if n > 0 {
        lemma_acquires_shift(outstanding + 1, (n - 1) as nat);
    }
}

} // verus!
