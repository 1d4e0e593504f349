//! An I/O object and a codec held together.
use vstd::prelude::*;

use crate::buf::buf_bytes;
use bytes::BytesMut;
use crate::decoder::{drops_prefix, Decoder};
use crate::encoder::Encoder;

verus! {

/// Holds the I/O object `t` and the codec `u`; decoding and encoding go to the codec.
pub(crate) struct Fuse<T, U> {
    pub t: T,
    pub u: U,
}

impl<T, U> Fuse<T, U> {
    pub(crate) fn new(t: T, u: U) -> (r: Self)
        ensures
            r.t == t,
            r.u == u,
    {
        Fuse { t, u }
    }
}

impl<T, U: Decoder> Decoder for Fuse<T, U> {
    type Item = U::Item;
    type Error = U::Error;

    open spec fn decodes(before: Seq<u8>, after: Seq<u8>, res: Result<Option<Self::Item>, Self::Error>) -> bool {
        U::decodes(before, after, res)
    }

    fn decode(&mut self, src: &mut BytesMut) -> (r: Result<Option<Self::Item>, Self::Error>) {
        self.u.decode(src)
    }

    fn decode_eof(&mut self, src: &mut BytesMut) -> (r: Result<Option<Self::Item>, Self::Error>) {
        self.u.decode_eof(src)
    }
}

impl<T, U: Encoder> Encoder for Fuse<T, U> {
    type Item = U::Item;
    type Error = U::Error;

    open spec fn encodes(item: Self::Item, before: Seq<u8>, after: Seq<u8>, res: Result<(), Self::Error>) -> bool {
        U::encodes(item, before, after, res)
    }

    fn encode(&mut self, item: Self::Item, dst: &mut BytesMut) -> (r: Result<(), Self::Error>) {
        self.u.encode(item, dst)
    }
}

} // verus!
