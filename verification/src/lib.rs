//! Adapter logic for a VP8/VP9 video decoder: mapping of decoded-image
//! metadata into canonical frame descriptors, plane layout and zero-copy
//! offset tables, the frame-buffer bridge to a shared buffer pool, and the
//! send/receive/flush protocol of a decoder instance.

pub mod bridge;
pub mod decoder;
pub mod error;
pub mod format;
pub mod image;
pub mod media;
pub mod planes;
