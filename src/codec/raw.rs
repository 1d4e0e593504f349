//! Raw bytes: each read delivers whatever is buffered.
use vstd::prelude::*;

use crate::buf::{buf_bytes, buf_extend, buf_slice, buf_split_to, fits, frozen_bytes, frozen_slice};
use crate::io_error::oversize_error;
use crate::decoder::Decoder;
use crate::framed_read::{reads_then_decodes, ReadStep};
use crate::encoder::Encoder;
use bytes::{Bytes, BytesMut};

verus! {

/// A codec that ships bytes around without framing.
pub struct BytesCodec {}

/// What one decode of the raw codec does: every buffered byte becomes one
/// item, and an empty buffer gives no item.
pub open spec fn raw_decodes(before: Seq<u8>, after: Seq<u8>, res: Result<Option<Bytes>, std::io::Error>) -> bool {
    if before.len() == 0 {
        (res matches Ok(None)) && after == before
    } else {
        (res matches Ok(Some(b)) && frozen_bytes(b) == before) && after.len() == 0
    }
}

/// What one encode of the raw codec does: the bytes are appended verbatim,
/// unless the buffer would grow past `isize::MAX` bytes.
pub open spec fn raw_encodes(item: Bytes, before: Seq<u8>, after: Seq<u8>, res: Result<(), std::io::Error>) -> bool {
    if before.len() + frozen_bytes(item).len() <= isize::MAX {
        res is Ok && after == before + frozen_bytes(item)
    } else {
        res is Err && after == before
    }
}

/// Takes every buffered byte as one item, or returns `None` on an empty buffer.
pub fn decode_raw(src: &mut BytesMut) -> (r: Option<Bytes>)
    ensures
        buf_bytes(*old(src)).len() == 0 ==> r is None && buf_bytes(*final(src)) == buf_bytes(
            *old(src),
        ),
        buf_bytes(*old(src)).len() > 0 ==> {
            &&& r is Some
            &&& frozen_bytes(r->Some_0) == buf_bytes(*old(src))
            &&& buf_bytes(*final(src)).len() == 0
        },
{
    let len = buf_slice(src).len();
    if len > 0 {
        let b = buf_split_to(src, len);
        proof {
            assert(buf_bytes(*old(src)).subrange(0, len as int) == buf_bytes(*old(src)));
        }
        Some(b)
    } else {
        None
    }
}

/// Appends the bytes of `item` verbatim.
pub fn encode_raw(item: &Bytes, dst: &mut BytesMut)
    requires
        buf_bytes(*old(dst)).len() + frozen_bytes(*item).len() <= isize::MAX,
    ensures
        buf_bytes(*final(dst)) == buf_bytes(*old(dst)) + frozen_bytes(*item),
{
    buf_extend(dst, frozen_slice(item));
}

/// A read step of the engine over the raw codec loses no byte: the bytes it
/// worked on are the emitted item followed by what stays buffered, and
/// without an item they all stay buffered. Any buffered byte becomes an item;
/// an empty buffer asks for more bytes, or ends the sequence at the end of input.
pub proof fn engine_keeps_every_byte(s: Seq<u8>, ended: bool, fin: Seq<u8>, r: ReadStep<Bytes, std::io::Error>)
    requires
        reads_then_decodes::<BytesCodec>(s, ended, fin, r),
    ensures
        r matches ReadStep::Item(b) ==> frozen_bytes(b) + fin == s,
        !(r is Item) ==> fin == s,
        s.len() > 0 ==> r is Item,
        s.len() == 0 && !ended ==> r is NeedBytes,
        s.len() == 0 && ended ==> r is End,
{
    if let ReadStep::Item(b) = r {
        assert(frozen_bytes(b) + fin =~= s);
    }
}

impl Encoder for BytesCodec {
    type Item = Bytes;
    type Error = std::io::Error;

    open spec fn encodes(item: Bytes, before: Seq<u8>, after: Seq<u8>, res: Result<(), std::io::Error>) -> bool {
        raw_encodes(item, before, after, res)
    }

    fn encode(&mut self, src: Bytes, dst: &mut BytesMut) -> (r: Result<(), std::io::Error>) {
        if !fits(buf_slice(dst).len(), frozen_slice(&src).len()) {
            return Err(oversize_error());
        }
        encode_raw(&src, dst);
        assert(buf_bytes(*old(dst)).is_prefix_of(buf_bytes(*dst)));
        Ok(())
    }
}

impl Decoder for BytesCodec {
    type Item = Bytes;
    type Error = std::io::Error;

    open spec fn decodes(before: Seq<u8>, after: Seq<u8>, res: Result<Option<Bytes>, std::io::Error>) -> bool {
        raw_decodes(before, after, res)
    }

    fn decode(&mut self, src: &mut BytesMut) -> (r: Result<Option<Bytes>, std::io::Error>) {
        let r = decode_raw(src);
        proof {
            let before = buf_bytes(*old(src));
            let after = buf_bytes(*src);
            assert(after =~= before.subrange(before.len() - after.len(), before.len() as int));
        }
        Ok(r)
    }
}

} // verus!
