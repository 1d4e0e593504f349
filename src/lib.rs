//! Adapters from byte-oriented I/O to streams and sinks of framed messages.
//!
//! A codec ([`Decoder`] / [`Encoder`]) cuts items out of a growing read buffer
//! and appends the serialization of items to a write buffer. The engines
//! ([`FramedRead`], [`FramedWrite`], [`Framed`]) own those buffers and decide,
//! step by step, what the surrounding driver must do with the I/O object:
//! read more bytes, write the pending bytes, report an item, or stop.
pub mod buf;
pub mod io_error;
pub mod decoder;
pub mod encoder;
mod fuse;
pub mod framed_read;
pub mod framed_write;
pub mod framed;
pub mod sink;
pub mod transport;
pub mod codec;

pub use bytes::{Bytes, BytesMut};
pub use codec::{BytesCodec, CborCodec, CborCodecError, LengthCodec, LinesCodec, SerdeCodec};
pub use decoder::Decoder;
pub use encoder::Encoder;
pub use framed::Framed;
pub use framed_read::{FramedRead, FramedRead2, ReadStep, INITIAL_CAPACITY};
pub use framed_write::{Drain, DrainMode, FramedWrite, FramedWrite2};
pub use sink::{IterSink, IterSinkExt};
