//! The decoding half of a codec.
use vstd::prelude::*;

use crate::buf::buf_bytes;
use bytes::BytesMut;

verus! {

/// `after` is what is left of `before` once some prefix of it has been taken away.
pub open spec fn drops_prefix(before: Seq<u8>, after: Seq<u8>) -> bool {
    &&& after.len() <= before.len()
    &&& after == before.subrange(before.len() - after.len(), before.len() as int)
}

/// Cuts items out of the front of a read buffer.
pub trait Decoder {
    /// What one frame decodes to.
    type Item;
    /// What a decode failure, or an I/O failure met while reading, becomes.
    type Error: From<std::io::Error>;

    /// Whether one call of `decode` or `decode_eof` that found `before` in the
    /// buffer may leave `after` there and return `res`. A codec states its own;
    /// by default nothing is said beyond the prefix that `decode` promises.
    open spec fn decodes(before: Seq<u8>, after: Seq<u8>, res: Result<Option<Self::Item>, Self::Error>) -> bool {
        true
    }

    /// Takes one item from the front of `src`, or returns `None` when more
    /// bytes are needed. Whatever the outcome, only a prefix of `src` is taken.
    fn decode(&mut self, src: &mut BytesMut) -> (r: Result<Option<Self::Item>, Self::Error>)
        ensures
            drops_prefix(buf_bytes(*old(src)), buf_bytes(*final(src))),
            Self::decodes(buf_bytes(*old(src)), buf_bytes(*final(src)), r),
    ;

    /// Called once the byte source has ended while `src` still holds bytes.
    /// By default it decodes as usual.
    fn decode_eof(&mut self, src: &mut BytesMut) -> (r: Result<Option<Self::Item>, Self::Error>)
        ensures
            drops_prefix(buf_bytes(*old(src)), buf_bytes(*final(src))),
            Self::decodes(buf_bytes(*old(src)), buf_bytes(*final(src)), r),
    {
        self.decode(src)
    }
}

} // verus!
