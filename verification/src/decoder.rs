//! The decoder state machine: construction, the send / receive / flush
//! protocol, the latch that configures a frame pool once, and teardown.
//!
//! The bitstream decoder itself runs outside this library. Each operation
//! here takes what the bitstream decoder answered and decides what the
//! decoder instance does next.

use std::sync::Arc;

use media_core::buffer::Buffer;
use vstd::prelude::*;

use crate::bridge::{
    acquired, get_frame_buffer, release_frame_buffer, released, FrameBuffer, FrameBufferBridge,
};
use crate::error::Error;
use crate::image::{shared_buffer_view, VPXImage, VideoFrameDescriptor};
use crate::media::{buffer_length, DEFAULT_BUFFER_CAPACITY};
use crate::planes::BufferPlaneVec;

verus! {

/// Codec identifiers of the host framework.
#[derive(Clone, Copy, Debug, PartialEq, Eq, Structural)]
pub enum CodecID {
    H264,
    H265,
    VP8,
    VP9,
    AV1,
    Other,
}

/// The entry point of the bitstream decoder that serves a codec.
#[derive(Clone, Copy, Debug, PartialEq, Eq, Structural)]
pub enum VpxInterface {
    VP8,
    VP9,
}

/// Status codes of the bitstream decoder.
#[derive(Clone, Copy, Debug, PartialEq, Eq, Structural)]
pub enum VpxCodecErr {
    Success,
    Error,
    MemError,
    AbiMismatch,
    Incapable,
    UnsupBitstream,
    UnsupFeature,
    CorruptFrame,
    InvalidParam,
    ListEnd,
}

/// Where a live decoder instance stands in its protocol. An instance
/// exists from its construction to its `close`, so the states before and
/// after have no value here.
#[derive(Clone, Copy, Debug, PartialEq, Eq, Structural)]
pub enum DecoderState {
    /// Waiting for a packet or a flush.
    Ready,
    /// A packet or a flush was taken; images may be waiting.
    Decoding,
}

/// What to do with the frame pool before a frame is taken from it.
#[derive(Clone, Copy, Debug, PartialEq, Eq, Structural)]
pub enum PoolAction {
    /// No pool was supplied: the frame is created on its own.
    NoPool,
    /// The pool was configured by an earlier frame and is used as it is.
    Reuse,
    /// First frame: configure the pool's geometry from the descriptor.
    Configure,
    /// First frame of a zero-copy stream: configure the pool's geometry
    /// with a creator of empty frames, so that the pool allocates no
    /// memory of its own.
    ConfigureEmpty,
}

/// Where the pixels of a frame come from.
pub enum FrameSource {
    /// Copy each plane: the table gives each plane's byte length and
    /// stride.
    Copy(BufferPlaneVec),
    /// Attach the backing buffer: the table gives each plane's offset in
    /// the buffer and stride.
    Shared(Arc<Buffer>, BufferPlaneVec),
}

/// How to produce the frame of one decoded image.
pub struct FramePlan {
    pub desc: VideoFrameDescriptor,
    pub source: FrameSource,
    pub pool: PoolAction,
}

/// A frame plan with its table as entries and without the buffer.
pub struct FramePlanView {
    pub desc: VideoFrameDescriptor,
    pub shared: bool,
    pub planes: Seq<(usize, u32)>,
    pub pool: PoolAction,
}

impl View for FramePlan {
    type V = FramePlanView;

    open spec fn view(&self) -> FramePlanView {
        match self.source {
            FrameSource::Copy(planes) => FramePlanView {
                desc: self.desc,
                shared: false,
                planes: planes@,
                pool: self.pool,
            },
            FrameSource::Shared(_, planes) => FramePlanView {
                desc: self.desc,
                shared: true,
                planes: planes@,
                pool: self.pool,
            },
        }
    }
}

/// A frame plan or the error in its place, by view.
pub open spec fn plan_view(r: Result<FramePlan, Error>) -> Result<FramePlanView, Error> {
    match r {
        Ok(plan) => Ok(plan@),
        Err(e) => Err(e),
    }
}

/// The name under which the decoder of a codec is registered.
pub open spec fn codec_name(iface: VpxInterface) -> Seq<char> {
    match iface {
        VpxInterface::VP8 => "vp8-dec"@,
        VpxInterface::VP9 => "vp9-dec"@,
    }
}

/// The entry point that serves a codec identifier: only two identifiers
/// have one.
pub open spec fn interface_of(id: CodecID) -> Result<VpxInterface, Error> {
    match id {
        CodecID::VP8 => Ok(VpxInterface::VP8),
        CodecID::VP9 => Ok(VpxInterface::VP9),
        _ => Err(Error::UnsupportedCodec),
    }
}

/// What a decode or flush call of the bitstream decoder amounts to: any
/// status but `Success` is a decode error that carries the decoder's message.
pub open spec fn decode_outcome(ret: VpxCodecErr, message: Seq<char>) -> Result<(), Seq<char>> {
    if ret == VpxCodecErr::Success {
        Ok(())
    } else {
        Err(message)
    }
}

/// The pool latch. `latch` is the geometry that the pool was configured
/// with, if it was. Without a pool nothing happens. The first frame
/// configures the pool and sets the latch; a later frame of the same
/// geometry reuses the pool; a later frame of another geometry is refused
/// and leaves the latch as it was.
pub open spec fn pool_decision(
    latch: Option<VideoFrameDescriptor>,
    desc: VideoFrameDescriptor,
    shared: bool,
    pool_present: bool,
) -> (Result<PoolAction, Error>, Option<VideoFrameDescriptor>) {
    if !pool_present {
        (Ok(PoolAction::NoPool), latch)
    } else {
        match latch {
            None => (
                Ok(
                    if shared {
                        PoolAction::ConfigureEmpty
                    } else {
                        PoolAction::Configure
                    },
                ),
                Some(desc),
            ),
            Some(configured) => if configured == desc {
                (Ok(PoolAction::Reuse), latch)
            } else {
                (Err(Error::PoolMismatch), latch)
            },
        }
    }
}

/// The source of an image's frame: the layout to copy where the image has
/// no backing buffer, else the offset table within the backing buffer,
/// which lies at address `backing.0` and has `backing.1` bytes. An image
/// whose private handle is set while no backing buffer is at hand is an
/// integrity error.
pub open spec fn frame_source(
    img: VPXImage,
    backing: Option<(usize, usize)>,
) -> Result<(VideoFrameDescriptor, bool, Seq<(usize, u32)>), Error> {
    if !img.spec_has_frame_buffer() {
        match img.spec_convert_to_frame() {
            Ok((desc, planes)) => Ok((desc, false, planes)),
            Err(e) => Err(e),
        }
    } else {
        match backing {
            None => Err(Error::IntegrityError),
            Some((base, len)) => match img.spec_convert_to_buffer(base, len) {
                Ok((desc, planes)) => Ok((desc, true, planes)),
                Err(e) => Err(e),
            },
        }
    }
}

/// The plan for one image and the latch after it: the image is converted
/// first, and the latch is consulted only for an image that converted.
pub open spec fn receive_decision(
    latch: Option<VideoFrameDescriptor>,
    img: VPXImage,
    backing: Option<(usize, usize)>,
    pool_present: bool,
) -> (Result<FramePlanView, Error>, Option<VideoFrameDescriptor>) {
    match frame_source(img, backing) {
        Err(e) => (Err(e), latch),
        Ok((desc, shared, planes)) => match pool_decision(latch, desc, shared, pool_present) {
            (Err(e), next) => (Err(e), next),
            (Ok(pool), next) => (Ok(FramePlanView { desc, shared, planes, pool }), next),
        },
    }
}

/// One receive step of the protocol on the state and the cursor: with an
/// image the instance is decoding and the cursor advances; without one
/// the instance is ready and the cursor stays. The third component tells
/// whether the step answers `Again`.
pub open spec fn receive_step(state: DecoderState, cursor: u64, image_present: bool) -> (
    DecoderState,
    u64,
    bool,
) {
    if image_present {
        (DecoderState::Decoding, cursor_advanced(cursor), false)
    } else {
        (DecoderState::Ready, cursor, true)
    }
}

/// The number of receive steps up to and including the first that answers
/// `Again`, for a bitstream decoder that holds `buffered` images.
pub open spec fn steps_until_again(state: DecoderState, cursor: u64, buffered: nat) -> nat
    decreases buffered,
{
    let next = receive_step(state, cursor, buffered > 0);
    if next.2 {
        1
    } else {
        1 + steps_until_again(next.0, next.1, (buffered - 1) as nat)
    }
}

/// The state in which the steps of `steps_until_again` leave the instance.
pub open spec fn state_after_drain(state: DecoderState, cursor: u64, buffered: nat) -> DecoderState
    decreases buffered,
{
    let next = receive_step(state, cursor, buffered > 0);
    if next.2 {
        next.0
    } else {
        state_after_drain(next.0, next.1, (buffered - 1) as nat)
    }
}

/// The cursor after one more image was taken.
pub open spec fn cursor_advanced(cursor: u64) -> u64 {
    if cursor < u64::MAX {
        (cursor + 1) as u64
    } else {
        cursor
    }
}

/// Selects the entry point of the bitstream decoder for a codec
/// identifier. An identifier of another codec is refused here, before
/// anything of the bitstream decoder is run.
pub fn codec_interface(id: CodecID) -> (r: Result<VpxInterface, Error>)
    ensures
        r == interface_of(id),
        r is Err <==> id != CodecID::VP8 && id != CodecID::VP9,
{
    match id {
        CodecID::VP8 => Ok(VpxInterface::VP8),
        CodecID::VP9 => Ok(VpxInterface::VP9),
        _ => Err(Error::UnsupportedCodec),
    }
}

/// What construction gives for a codec identifier, the initializer's
/// status and its message: an unsupported identifier is refused whatever
/// the status says; a status other than `Success` is a decode error with
/// the message; otherwise the instance is fresh.
pub open spec fn construction(
    id: CodecID,
    init: VpxCodecErr,
    message: String,
    r: Result<VPXDecoder, Error>,
) -> bool {
    match interface_of(id) {
        Err(refused) => r matches Err(e) && e == refused,
        Ok(iface) => if init != VpxCodecErr::Success {
            r matches Err(e) && e == Error::DecodeError(message)
        } else {
            r matches Ok(d) && d.is_fresh(iface)
        },
    }
}

/// One decoder instance.
pub struct VPXDecoder {
    iface: VpxInterface,
    state: DecoderState,
    cursor: u64,
    frame_pool_desc: Option<VideoFrameDescriptor>,
    frame_buffers: FrameBufferBridge,
}

impl VPXDecoder {
    /// The entry point that the instance was built on.
    pub closed spec fn interface(&self) -> VpxInterface {
        self.iface
    }

    /// The state of the protocol.
    pub closed spec fn state(&self) -> DecoderState {
        self.state
    }

    /// The number of images taken since the last packet or flush.
    pub closed spec fn cursor(&self) -> u64 {
        self.cursor
    }

    /// The geometry that the frame pool was configured with, once it was.
    pub closed spec fn pool_descriptor(&self) -> Option<VideoFrameDescriptor> {
        self.frame_pool_desc
    }

    /// True of an instance as construction leaves it: ready, with the
    /// cursor at the start, the pool latch open, and a buffer pool of the
    /// default capacity of which nothing is outstanding.
    pub open spec fn is_fresh(&self, iface: VpxInterface) -> bool {
        &&& self.interface() == iface
        &&& self.state() == DecoderState::Ready
        &&& self.cursor() == 0
        &&& self.pool_descriptor() is None
        &&& self.frame_buffers().capacity() == DEFAULT_BUFFER_CAPACITY
        &&& self.frame_buffers().outstanding() == 0
    }

    /// The buffer pool of the instance, which serves the frame-buffer
    /// callbacks of the bitstream decoder.
    pub closed spec fn frame_buffers(&self) -> FrameBufferBridge {
        self.frame_buffers
    }

    /// The codec identifier of the instance.
    pub open spec fn spec_id(&self) -> CodecID {
        match self.interface() {
            VpxInterface::VP8 => CodecID::VP8,
            VpxInterface::VP9 => CodecID::VP9,
        }
    }

    /// True iff the bitstream decoder is to obtain its frame buffers from
    /// this instance's pool: only the second codec supports that.
    pub open spec fn spec_uses_frame_buffers(&self) -> bool {
        self.interface() == VpxInterface::VP9
    }

    /// Builds the instance for `id` once the bitstream decoder's
    /// initializer has answered `init`, with `message` as its error text.
    /// An unsupported identifier is refused whatever `init` says: for it
    /// `codec_interface` has no entry point, so no initializer can have
    /// run. A status other than `Success` is a decode error with the message.
    /// Otherwise the instance is ready, with the cursor at the start, the
    /// pool latch open and a fresh buffer pool of the default capacity.
    pub fn new(id: CodecID, init: VpxCodecErr, message: String) -> (r: Result<VPXDecoder, Error>)
        ensures
            construction(id, init, message, r),
    {
        let iface = match codec_interface(id) {
            Ok(iface) => iface,
            Err(e) => {
                return Err(e);
            },
        };
        match init {
            VpxCodecErr::Success => {},
            _ => {
                return Err(Error::DecodeError(message));
            },
        }
        Ok(
            VPXDecoder {
                iface,
                state: DecoderState::Ready,
                cursor: 0,
                frame_pool_desc: None,
                frame_buffers: FrameBufferBridge::new(),
            },
        )
    }

    /// The codec identifier of the instance.
    pub fn id(&self) -> (r: CodecID)
        ensures
            r == self.spec_id(),
    {
        match self.iface {
            VpxInterface::VP8 => CodecID::VP8,
            VpxInterface::VP9 => CodecID::VP9,
        }
    }

    /// The name of the decoder.
    pub fn name(&self) -> (r: &'static str)
        ensures
            r@ == codec_name(self.interface()),
    {
        match self.iface {
            VpxInterface::VP8 => VP8_CODEC_NAME,
            VpxInterface::VP9 => VP9_CODEC_NAME,
        }
    }

    /// Tells whether the frame-buffer callbacks are registered with the
    /// bitstream decoder for this instance.
    pub fn uses_frame_buffers(&self) -> (r: bool)
        ensures
            r == self.spec_uses_frame_buffers(),
    {
        match self.iface {
            VpxInterface::VP8 => false,
            VpxInterface::VP9 => true,
        }
    }

    /// The state of the protocol.
    pub fn current_state(&self) -> (r: DecoderState)
        ensures
            r == self.state(),
    {
        self.state
    }

    /// The number of images taken since the last packet or flush.
    pub fn images_taken(&self) -> (r: u64)
        ensures
            r == self.cursor(),
    {
        self.cursor
    }

    /// The geometry that the frame pool was configured with, once it was.
    pub fn frame_pool_descriptor(&self) -> (r: Option<VideoFrameDescriptor>)
        ensures
            r == self.pool_descriptor(),
    {
        self.frame_pool_desc
    }

    /// Parameters are fixed at construction: nothing changes.
    pub fn configure(&mut self) -> (r: Result<(), Error>)
        ensures
            r is Ok,
            *final(self) == *old(self),
    {
        Ok(())
    }

    /// Parameters are fixed at construction: nothing changes.
    pub fn set_option(&mut self, name: &str) -> (r: Result<(), Error>)
        ensures
            r is Ok,
            *final(self) == *old(self),
    {
        Ok(())
    }

    /// Takes the bitstream decoder's answer to a packet: the cursor
    /// returns to the start in any case; with status `Success` the instance is
    /// decoding, and with any other status the call fails with a decode
    /// error that carries the message, and the instance is ready.
    pub fn send_packet(&mut self, ret: VpxCodecErr, message: String) -> (r: Result<(), Error>)
        ensures
            final(self).cursor() == 0,
            final(self).interface() == old(self).interface(),
            final(self).pool_descriptor() == old(self).pool_descriptor(),
            final(self).frame_buffers() == old(self).frame_buffers(),
            ret == VpxCodecErr::Success ==> r is Ok && final(self).state() == DecoderState::Decoding,
            ret != VpxCodecErr::Success ==> (r matches Err(e) && e == Error::DecodeError(message))
                && final(self).state() == DecoderState::Ready,
    {
        self.cursor = 0;
        match ret {
            VpxCodecErr::Success => {
                self.state = DecoderState::Decoding;
                Ok(())
            },
            _ => {
                self.state = DecoderState::Ready;
                Err(Error::DecodeError(message))
            },
        }
    }

    /// Takes the bitstream decoder's answer to the flush signal, an empty
    /// input: as for a packet.
    pub fn flush(&mut self, ret: VpxCodecErr, message: String) -> (r: Result<(), Error>)
        ensures
            final(self).cursor() == 0,
            final(self).interface() == old(self).interface(),
            final(self).pool_descriptor() == old(self).pool_descriptor(),
            final(self).frame_buffers() == old(self).frame_buffers(),
            ret == VpxCodecErr::Success ==> r is Ok && final(self).state() == DecoderState::Decoding,
            ret != VpxCodecErr::Success ==> (r matches Err(e) && e == Error::DecodeError(message))
                && final(self).state() == DecoderState::Ready,
    {
        self.send_packet(ret, message)
    }

    /// Takes what the bitstream decoder returned at the cursor. No image
    /// means that none is ready: `Again`, and the instance is ready for
    /// the next packet. An image advances the cursor and is handed on.
    pub fn get_image(&mut self, image: Option<VPXImage>) -> (r: Result<VPXImage, Error>)
        ensures
            final(self).interface() == old(self).interface(),
            final(self).pool_descriptor() == old(self).pool_descriptor(),
            final(self).frame_buffers() == old(self).frame_buffers(),
            (final(self).state(), final(self).cursor(), r is Err) == receive_step(
                old(self).state(),
                old(self).cursor(),
                image is Some,
            ),
            match image {
                None => r == Err::<VPXImage, Error>(Error::Again),
                Some(img) => r == Ok::<VPXImage, Error>(img),
            },
    {
        match image {
            None => {
                self.state = DecoderState::Ready;
                Err(Error::Again)
            },
            Some(img) => {
                self.state = DecoderState::Decoding;
                if self.cursor < u64::MAX {
                    self.cursor = self.cursor + 1;
                }
                Ok(img)
            },
        }
    }

    /// Consults the pool latch for a frame of geometry `desc`, as
    /// `pool_decision` says. Once the latch is set it never changes.
    pub fn configure_frame_pool(
        &mut self,
        desc: VideoFrameDescriptor,
        shared: bool,
        pool_present: bool,
    ) -> (r: Result<PoolAction, Error>)
        ensures
            (r, final(self).pool_descriptor()) == pool_decision(
                old(self).pool_descriptor(),
                desc,
                shared,
                pool_present,
            ),
            old(self).pool_descriptor() is Some ==> final(self).pool_descriptor() == old(
                self,
            ).pool_descriptor(),
            final(self).interface() == old(self).interface(),
            final(self).state() == old(self).state(),
            final(self).cursor() == old(self).cursor(),
            final(self).frame_buffers() == old(self).frame_buffers(),
    {
        if !pool_present {
            return Ok(PoolAction::NoPool);
        }
        match self.frame_pool_desc {
            None => {
                self.frame_pool_desc = Some(desc);
                if shared {
                    Ok(PoolAction::ConfigureEmpty)
                } else {
                    Ok(PoolAction::Configure)
                }
            },
            Some(configured) => {
                if configured == desc {
                    Ok(PoolAction::Reuse)
                } else {
                    Err(Error::PoolMismatch)
                }
            },
        }
    }

    /// Takes what the bitstream decoder returned at the cursor and plans
    /// the frame. `buffer` is the backing buffer behind the image's
    /// private handle, where the image has one; `pool_present` tells
    /// whether the caller supplied a frame pool. No image gives `Again`.
    /// An image is converted, to a layout to copy or to an offset table in
    /// its backing buffer, and then the pool latch is consulted, as
    /// `receive_decision` says for the buffer's length and the address at
    /// which the buffer lies. An image that fails leaves the latch as it
    /// was.
    pub fn receive_frame(
        &mut self,
        image: Option<VPXImage>,
        buffer: Option<&Arc<Buffer>>,
        pool_present: bool,
    ) -> (r: Result<FramePlan, Error>)
        ensures
            final(self).interface() == old(self).interface(),
            final(self).frame_buffers() == old(self).frame_buffers(),
            old(self).pool_descriptor() is Some ==> final(self).pool_descriptor() == old(
                self,
            ).pool_descriptor(),
            (final(self).state(), final(self).cursor(), r matches Err(Error::Again))
                == receive_step(old(self).state(), old(self).cursor(), image is Some),
            image is None ==> final(self).pool_descriptor() == old(self).pool_descriptor(),
            image matches Some(img) ==> {
                exists|base: usize|
                    (plan_view(r), final(self).pool_descriptor()) == #[trigger] receive_decision(
                        old(self).pool_descriptor(),
                        img,
                        backing_of(buffer, base),
                        pool_present,
                    )
            },
            r matches Ok(plan) ==> (plan.source matches FrameSource::Shared(shared, _) ==> buffer
                == Some(&shared)),
    {
        let img = match self.get_image(image) {
            Ok(img) => img,
            Err(e) => {
                return Err(e);
            },
        };
        if !img.has_frame_buffer() {
            let r = match img.convert_to_frame() {
                Ok((desc, planes)) => self.plan_frame(desc, FrameSource::Copy(planes), pool_present),
                Err(e) => Err(e),
            };
            assert((plan_view(r), self.pool_descriptor()) == receive_decision(
                old(self).pool_descriptor(),
                img,
                backing_of(buffer, 0),
                pool_present,
            ));
            r
        } else {
            let backing = match buffer {
                Some(backing) => backing,
                None => {
                    assert(receive_decision(
                        old(self).pool_descriptor(),
                        img,
                        backing_of(buffer, 0),
                        pool_present,
                    ) == (Err::<FramePlanView, Error>(Error::IntegrityError), self.pool_descriptor()));
                    return Err(Error::IntegrityError);
                },
            };
            let converted = img.convert_to_buffer(backing);
            let ghost base = choose|base: usize|
                shared_buffer_view(converted) == #[trigger] img.spec_convert_to_buffer(
                    base,
                    buffer_length(**backing),
                );
            let r = match converted {
                Ok((shared, planes, desc)) => self.plan_frame(
                    desc,
                    FrameSource::Shared(shared, planes),
                    pool_present,
                ),
                Err(e) => Err(e),
            };
            assert((plan_view(r), self.pool_descriptor()) == receive_decision(
                old(self).pool_descriptor(),
                img,
                backing_of(buffer, base),
                pool_present,
            ));
            r
        }
    }

    /// Completes the plan for a converted image: the pool latch is
    /// consulted for the descriptor, and, unless it refuses, the plan is
    /// the descriptor, the source and the latch's answer.
    pub fn plan_frame(
        &mut self,
        desc: VideoFrameDescriptor,
        source: FrameSource,
        pool_present: bool,
    ) -> (r: Result<FramePlan, Error>)
        ensures
            final(self).interface() == old(self).interface(),
            final(self).state() == old(self).state(),
            final(self).cursor() == old(self).cursor(),
            final(self).frame_buffers() == old(self).frame_buffers(),
            old(self).pool_descriptor() is Some ==> final(self).pool_descriptor() == old(
                self,
            ).pool_descriptor(),
            match pool_decision(
                old(self).pool_descriptor(),
                desc,
                source is Shared,
                pool_present,
            ) {
                (Err(e), next) => r matches Err(e2) && e2 == e && final(self).pool_descriptor()
                    == next,
                (Ok(pool), next) => r matches Ok(plan) && plan.desc == desc && plan.source == source
                    && plan.pool == pool && final(self).pool_descriptor() == next,
            },
    {
        let shared = match &source {
            FrameSource::Copy(_) => false,
            FrameSource::Shared(_, _) => true,
        };
        match self.configure_frame_pool(desc, shared, pool_present) {
            Ok(pool) => Ok(FramePlan { desc, source, pool }),
            Err(e) => Err(e),
        }
    }

    /// Serves the acquire callback of the bitstream decoder from the
    /// instance's buffer pool, as `get_frame_buffer` does.
    pub fn acquire_frame_buffer(&mut self, min_size: usize) -> (r: Option<FrameBuffer>)
        ensures
            final(self).interface() == old(self).interface(),
            final(self).state() == old(self).state(),
            final(self).cursor() == old(self).cursor(),
            final(self).pool_descriptor() == old(self).pool_descriptor(),
            acquired(old(self).frame_buffers(), min_size, r, final(self).frame_buffers()),
    {
        get_frame_buffer(&mut self.frame_buffers, min_size)
    }

    /// Serves the release callback of the bitstream decoder, as
    /// `release_frame_buffer` does.
    pub fn release_frame_buffer(&mut self, buffer: Option<Arc<Buffer>>) -> (r: bool)
        ensures
            final(self).interface() == old(self).interface(),
            final(self).state() == old(self).state(),
            final(self).cursor() == old(self).cursor(),
            final(self).pool_descriptor() == old(self).pool_descriptor(),
            r == (buffer is Some),
            final(self).frame_buffers().capacity() == old(self).frame_buffers().capacity(),
            final(self).frame_buffers().outstanding() == if buffer is Some {
                released(old(self).frame_buffers().outstanding())
            } else {
                old(self).frame_buffers().outstanding()
            },
    {
        release_frame_buffer(&mut self.frame_buffers, buffer)
    }

    /// A frame that borrows the decoder's memory is not offered.
    pub fn receive_frame_borrowed(&mut self) -> (r: Result<FramePlan, Error>)
        ensures
            r matches Err(e) && e == Error::Unsupported,
            *final(self) == *old(self),
    {
        Err(Error::Unsupported)
    }

    /// Ends the instance and hands its buffer pool to the caller, who
    /// destroys the bitstream decoder's context first and lets go of the
    /// pool after that: the context may still release frame buffers while
    /// it is torn down.
    pub fn close(self) -> (pool: FrameBufferBridge)
        ensures
            pool == self.frame_buffers(),
    {
        self.frame_buffers
    }
}

/// The backing buffer as the decision sees it: its address and length.
pub open spec fn backing_of(buffer: Option<&Arc<Buffer>>, base: usize) -> Option<(usize, usize)> {
    match buffer {
        Some(b) => Some((base, buffer_length(**b))),
        None => None,
    }
}

/// The name of the decoder of the first codec.
pub const VP8_CODEC_NAME: &'static str = "vp8-dec";

/// The name of the decoder of the second codec.
pub const VP9_CODEC_NAME: &'static str = "vp9-dec";

/// A record from which decoders of one codec are built.
#[derive(Clone, Copy, Debug)]
pub struct VPXDecoderBuilder {
    iface: VpxInterface,
}

impl VPXDecoderBuilder {
    /// The entry point that the builder stands for.
    pub closed spec fn interface(&self) -> VpxInterface {
        self.iface
    }

    /// The builder of the decoders of one entry point.
    pub fn new(iface: VpxInterface) -> (r: Self)
        ensures
            r.interface() == iface,
    {
        VPXDecoderBuilder { iface }
    }

    /// Builds a decoder for `codec_id`, as `VPXDecoder::new` does.
    pub fn new_decoder(
        &self,
        codec_id: CodecID,
        init: VpxCodecErr,
        message: String,
    ) -> (r: Result<VPXDecoder, Error>)
        ensures
            construction(codec_id, init, message, r),
    {
        VPXDecoder::new(codec_id, init, message)
    }

    /// The codec identifier that the builder is registered under.
    pub fn id(&self) -> (r: CodecID)
        ensures
            interface_of(r) == Ok::<VpxInterface, Error>(self.interface()),
    {
        match self.iface {
            VpxInterface::VP8 => CodecID::VP8,
            VpxInterface::VP9 => CodecID::VP9,
        }
    }

    /// The name that the builder is registered under.
    pub fn name(&self) -> (r: &'static str)
        ensures
            r@ == codec_name(self.interface()),
    {
        match self.iface {
            VpxInterface::VP8 => VP8_CODEC_NAME,
            VpxInterface::VP9 => VP9_CODEC_NAME,
        }
    }
}

/// The builders to enter in the host framework's decoder registry, once,
/// at startup: one for each supported codec.
pub fn initialize() -> (builders: Vec<VPXDecoderBuilder>)
    ensures
        builders@.len() == 2,
        builders@[0].interface() == VpxInterface::VP8,
        builders@[1].interface() == VpxInterface::VP9,
{
    let mut builders: Vec<VPXDecoderBuilder> = Vec::with_capacity(2);
    builders.push(VPXDecoderBuilder::new(VpxInterface::VP8));
    builders.push(VPXDecoderBuilder::new(VpxInterface::VP9));
    builders
}

/// The pool latch is monotonic: once a first frame has configured a
/// supplied pool, a frame of another geometry is refused and the pool's
/// geometry stays that of the first frame.
pub proof fn lemma_pool_latch_holds(
    first: VideoFrameDescriptor,
    second: VideoFrameDescriptor,
    first_shared: bool,
    second_shared: bool,
)
    requires
        first != second,
    ensures
        pool_decision(None, first, first_shared, true).0 is Ok,
        pool_decision(None, first, first_shared, true).1 == Some(first),
        pool_decision(Some(first), second, second_shared, true) == (
            Err::<PoolAction, Error>(Error::PoolMismatch),
            Some(first),
        ),
{
}

/// Draining ends: a bitstream decoder that holds `buffered` images is
/// drained by exactly `buffered + 1` receive steps, of which only the last
/// answers `Again`, and the instance is then ready for the next packet.
pub proof fn lemma_drain_ends(state: DecoderState, cursor: u64, buffered: nat)
    ensures
        steps_until_again(state, cursor, buffered) == buffered + 1,
        state_after_drain(state, cursor, buffered) == DecoderState::Ready,
    decreases buffered,
{
    if buffered > 0 {
        let next = receive_step(state, cursor, true);
        lemma_drain_ends(next.0, next.1, (buffered - 1) as nat);
    }
}

/// A converted image never answers `Again`: that answer is kept for the
/// bitstream decoder having no image.
pub proof fn lemma_image_never_again(
    latch: Option<VideoFrameDescriptor>,
    img: VPXImage,
    backing: Option<(usize, usize)>,
    pool_present: bool,
)
    ensures
        !(receive_decision(latch, img, backing, pool_present).0 matches Err(Error::Again)),
{
}

/// Whatever the latch decides, a geometry that it holds stays.
pub proof fn lemma_pool_latch_never_changes(
    configured: VideoFrameDescriptor,
    desc: VideoFrameDescriptor,
    shared: bool,
    pool_present: bool,
)
    ensures
        pool_decision(Some(configured), desc, shared, pool_present).1 == Some(configured),
{
}

} // verus!
