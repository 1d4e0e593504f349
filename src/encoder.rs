//! The encoding half of a codec.
use vstd::prelude::*;

use crate::buf::buf_bytes;
use bytes::BytesMut;

verus! {

/// Appends the serialization of items to a write buffer.
pub trait Encoder {
    /// What is serialized.
    type Item;
    /// What an encode failure, or an I/O failure met while writing, becomes.
    type Error: From<std::io::Error>;

    /// Whether one call of `encode` of `item` that found `before` in the buffer
    /// may leave `after` there and return `res`. A codec states its own; by
    /// default nothing is said beyond the prefix that `encode` promises.
    open spec fn encodes(item: Self::Item, before: Seq<u8>, after: Seq<u8>, res: Result<(), Self::Error>) -> bool {
        true
    }

    /// Appends the bytes of `item` at the back of `dst`; what `dst` held stays in front.
    fn encode(&mut self, item: Self::Item, dst: &mut BytesMut) -> (r: Result<(), Self::Error>)
        ensures
            buf_bytes(*old(dst)).is_prefix_of(buf_bytes(*final(dst))),
            Self::encodes(item, buf_bytes(*old(dst)), buf_bytes(*final(dst)), r),
    ;
}

} // verus!
