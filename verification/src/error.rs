//! The errors that the adapter reports.

use vstd::prelude::*;

verus! {

/// What can go wrong while adapting the decoder's output.
#[derive(Debug, PartialEq, Eq)]
pub enum Error {
    /// The codec identifier names neither of the two supported codecs.
    UnsupportedCodec,
    /// The decoded image's layout and bit depth have no canonical pixel
    /// format; carries the numeric code of the layout.
    UnsupportedFormat(u32),
    /// The decoded image has a zero width or height, or a height whose
    /// chroma rows cannot be computed.
    InvalidDimensions,
    /// The bitstream decoder reported a failure; carries its message.
    DecodeError(String),
    /// No frame is ready: send another packet, or flush, and retry.
    Again,
    /// A plane of a zero-copy image lies outside its backing buffer.
    IntegrityError,
    /// A later image does not fit the geometry that the frame pool was
    /// configured with.
    PoolMismatch,
    /// The operation is not offered by this decoder.
    Unsupported,
}

impl Error {
    /// True for the one outcome that is ordinary control flow.
    pub open spec fn spec_is_again(self) -> bool {
        self is Again
    }

    /// Tells "no frame ready" apart from every real failure.
    pub fn is_again(&self) -> (r: bool)
        ensures
            r == self.spec_is_again(),
    {
        match self {
            Error::Again => true,
            _ => false,
        }
    }
}

} // verus!
