//! A transport that holds its I/O object, its codec and the buffers of the
//! directions it serves.
use vstd::prelude::*;

use crate::buf::{buf_bytes, buf_with_capacity};
use crate::decoder::Decoder;
use crate::encoder::Encoder;
use bytes::BytesMut;

verus! {

/// The part of a direction that a transport does not serve.
pub struct Empty {
    _priv: (),
}

impl Empty {
    fn new() -> (r: Self) {
        Empty { _priv: () }
    }
}

/// The buffer of a direction that a transport serves.
pub struct FramedPart {
    buf: BytesMut,
}

impl FramedPart {
    /// The bytes buffered for this direction.
    pub closed spec fn buffered(&self) -> Seq<u8> {
        buf_bytes(self.buf)
    }

    fn new() -> (r: Self)
        ensures
            r.buffered().len() == 0,
    {
        FramedPart { buf: buf_with_capacity(0) }
    }
}

/// An I/O object and a codec, with a part for reading (`A`) and one for writing (`B`).
pub struct Transport<T, U, A, B> {
    io: T,
    codec: U,
    parts: (A, B),
}

/// A transport that only reads.
pub type FramedRead<T, U> = Transport<T, U, FramedPart, Empty>;

impl<T, U, A, B> Transport<T, U, A, B> {
    /// The I/O object.
    pub closed spec fn io_spec(&self) -> T {
        self.io
    }

    /// The codec.
    pub closed spec fn codec_spec(&self) -> U {
        self.codec
    }

    /// The reading part.
    pub closed spec fn read_part(&self) -> A {
        self.parts.0
    }

    /// The writing part.
    pub closed spec fn write_part(&self) -> B {
        self.parts.1
    }
}

impl<T, U: Decoder + Encoder> Transport<T, U, FramedPart, FramedPart> {
    /// A transport that reads and writes, with two empty buffers.
    pub fn framed(io: T, codec: U) -> (r: Self)
        ensures
            r.io_spec() == io,
            r.codec_spec() == codec,
            r.read_part().buffered().len() == 0,
            r.write_part().buffered().len() == 0,
    {
        Transport { io, codec, parts: (FramedPart::new(), FramedPart::new()) }
    }
}

impl<T, U: Decoder> Transport<T, U, FramedPart, Empty> {
    /// A transport that only reads, with an empty buffer.
    pub fn new(io: T, decoder: U) -> (r: Self)
        ensures
            r.io_spec() == io,
            r.codec_spec() == decoder,
            r.read_part().buffered().len() == 0,
    {
        Self::framed_read(io, decoder)
    }

    /// A transport that only reads, with an empty buffer.
    pub fn framed_read(io: T, decoder: U) -> (r: Self)
        ensures
            r.io_spec() == io,
            r.codec_spec() == decoder,
            r.read_part().buffered().len() == 0,
    {
        Transport { io, codec: decoder, parts: (FramedPart::new(), Empty::new()) }
    }
}

impl<T, U: Encoder> Transport<T, U, Empty, FramedPart> {
    /// A transport that only writes, with an empty buffer.
    pub fn framed_write(io: T, encoder: U) -> (r: Transport<T, U, Empty, FramedPart>)
        ensures
            r.io_spec() == io,
            r.codec_spec() == encoder,
            r.write_part().buffered().len() == 0,
    {
        Transport { io, codec: encoder, parts: (Empty::new(), FramedPart::new()) }
    }
}

impl<T, U, B> Transport<T, U, FramedPart, B> {
    /// The stream side of a transport that reads; it does nothing yet.
    pub fn next(&self) {
    }
}

impl<T, U, A> Transport<T, U, A, FramedPart> {
    /// The sink side of a transport that writes; it does nothing yet.
    pub fn send(&self) {
    }
}

} // verus!
