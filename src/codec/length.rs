//! Length-prefixed frames: an eight-byte big-endian length, then the payload.
use vstd::prelude::*;

use crate::buf::{
    be_bytes, be_value, buf_advance, buf_bytes, buf_extend, buf_put_u64, buf_slice, buf_split_to,
    be_prefix, fits, frozen_bytes, frozen_slice, lemma_be_prefix_agree, lemma_be_value_of_be_bytes,
    read_be_u64,
};
use crate::decoder::Decoder;
use crate::framed_read::{reads_then_decodes, ReadStep};
use crate::io_error::oversize_error;
use crate::encoder::Encoder;
use bytes::{Bytes, BytesMut};

verus! {

/// Size of the length header.
pub const U64_LENGTH: usize = 8;

/// A codec that prefixes each payload with its length.
pub struct LengthCodec;

/// The frame that carries `payload`.
pub open spec fn length_frame(payload: Seq<u8>) -> Seq<u8> {
    be_bytes(payload.len() as u64) + payload
}

/// What decoding the buffer `s` gives: the payload of the frame at its front and
/// the number of bytes that frame takes, or `None` while the frame is incomplete.
pub open spec fn length_decoded(s: Seq<u8>) -> Option<(Seq<u8>, nat)> {
    if s.len() < 8 {
        None
    } else if s.len() - 8 >= be_value(s) {
        Some((s.subrange(8, 8 + be_value(s)), (8 + be_value(s)) as nat))
    } else {
        None
    }
}

/// What one decode of the length codec does: the payload of a whole frame at
/// the front is the item and the frame leaves the buffer; an incomplete frame
/// gives no item and leaves the buffer as it was.
pub open spec fn length_decodes(before: Seq<u8>, after: Seq<u8>, res: Result<Option<Bytes>, std::io::Error>) -> bool {
    match length_decoded(before) {
        None => (res matches Ok(None)) && after == before,
        Some((payload, k)) => (res matches Ok(Some(b)) && frozen_bytes(b) == payload) && after
            == before.subrange(k as int, before.len() as int),
    }
}

/// What one encode of the length codec does: the frame of the payload is
/// appended, unless the buffer would grow past `isize::MAX` bytes.
pub open spec fn length_encodes(item: Bytes, before: Seq<u8>, after: Seq<u8>, res: Result<(), std::io::Error>) -> bool {
    if before.len() + 8 + frozen_bytes(item).len() <= isize::MAX {
        res is Ok && after == before + length_frame(frozen_bytes(item))
    } else {
        res is Err && after == before
    }
}

/// Takes the frame at the front of `src` and returns its payload. While the
/// frame is incomplete nothing is taken, header included.
pub fn decode_length(src: &mut BytesMut) -> (r: Option<Bytes>)
    ensures
        match length_decoded(buf_bytes(*old(src))) {
            None => r is None && buf_bytes(*final(src)) == buf_bytes(*old(src)),
            Some((payload, k)) => {
                &&& r is Some
                &&& frozen_bytes(r->Some_0) == payload
                &&& buf_bytes(*final(src)) == buf_bytes(*old(src)).subrange(
                    k as int,
                    buf_bytes(*old(src)).len() as int,
                )
            },
        },
{
    let len = buf_slice(src).len();
    if len < U64_LENGTH {
        return None;
    }
    let n = read_be_u64(buf_slice(src));
    if ((len - U64_LENGTH) as u64) < n {
        return None;
    }
    let ghost s = buf_bytes(*src);
    buf_advance(src, U64_LENGTH);
    let b = buf_split_to(src, n as usize);
    proof {
        assert(s.subrange(8, s.len() as int).subrange(0, n as int) == s.subrange(8, 8 + n));
        assert(s.subrange(8, s.len() as int).subrange(n as int, s.len() - 8) == s.subrange(
            8 + n,
            s.len() as int,
        ));
    }
    Some(b)
}

/// Whether the frame of an `n`-byte payload fits behind `len` bytes in one buffer.
pub fn fits_frame(len: usize, n: usize) -> (r: bool)
    ensures
        r <==> len + 8 + n <= isize::MAX,
{
    fits(len, U64_LENGTH) && fits(len + U64_LENGTH, n)
}

/// Appends the frame of `payload`.
pub fn encode_length(payload: &[u8], dst: &mut BytesMut)
    requires
        buf_bytes(*old(dst)).len() + 8 + payload@.len() <= isize::MAX,
    ensures
        buf_bytes(*final(dst)) == buf_bytes(*old(dst)) + length_frame(payload@),
{
    buf_put_u64(dst, payload.len() as u64);
    buf_extend(dst, payload);
    assert(buf_bytes(*dst) =~= buf_bytes(*old(dst)) + length_frame(payload@));
}

/// The frames of `items`, one after the other.
pub open spec fn length_frames(items: Seq<Seq<u8>>) -> Seq<u8>
    decreases items.len(),
{
    if items.len() == 0 {
        Seq::empty()
    } else {
        length_frame(items[0]) + length_frames(items.drop_first())
    }
}

/// The payloads that decoding `s` over and over gives, until no whole frame is left.
pub open spec fn length_decode_all(s: Seq<u8>) -> Seq<Seq<u8>>
    decreases s.len(),
{
    match length_decoded(s) {
        Some((payload, k)) => if 0 < k <= s.len() {
            seq![payload] + length_decode_all(s.subrange(k as int, s.len() as int))
        } else {
            Seq::empty()
        },
        None => Seq::empty(),
    }
}

proof fn lemma_header_of_frame(p: Seq<u8>, s: Seq<u8>)
    requires
        p.len() <= u64::MAX,
        s.len() >= 8,
        forall|i: int| 0 <= i < 8 ==> s[i] == length_frame(p)[i],
    ensures
        be_value(s) == p.len(),
{
    let f = length_frame(p);
    lemma_be_value_of_be_bytes(p.len() as u64);
    lemma_be_prefix_agree(f, be_bytes(p.len() as u64), 8);
    lemma_be_prefix_agree(s, f, 8);
}

/// The frame of a payload, whatever follows it, decodes to that payload and
/// takes exactly its own bytes.
pub proof fn lemma_frame_decodes(payload: Seq<u8>, rest: Seq<u8>)
    requires
        payload.len() <= u64::MAX,
    ensures
        length_decoded(length_frame(payload) + rest) == Some((payload, (8 + payload.len()) as nat)),
{
    let s = length_frame(payload) + rest;
    lemma_header_of_frame(payload, s);
    assert(s.subrange(8, 8 + payload.len() as int) =~= payload);
}

/// Encoding a sequence of payloads and decoding the bytes frame after frame
/// gives the same payloads, in the same order.
pub proof fn length_round_trip(items: Seq<Seq<u8>>)
    requires
        forall|i: int| 0 <= i < items.len() ==> items[i].len() <= u64::MAX,
    ensures
        length_decode_all(length_frames(items)) == items,
    decreases items.len(),
{
    if items.len() == 0 {
        assert(length_decode_all(Seq::empty()) == Seq::<Seq<u8>>::empty());
        assert(items =~= Seq::<Seq<u8>>::empty());
    } else {
        let tail = items.drop_first();
        let rest = length_frames(tail);
        let s = length_frame(items[0]) + rest;
        lemma_frame_decodes(items[0], rest);
        let k = 8 + items[0].len() as int;
        assert(s.subrange(k, s.len() as int) =~= rest);
        length_round_trip(tail);
        assert(seq![items[0]] + tail =~= items);
    }
}

/// A whole frame at the front of a buffer decodes the same way whatever bytes
/// arrive after it.
pub proof fn length_decode_prefix_stable(s: Seq<u8>, t: Seq<u8>)
    requires
        length_decoded(s) is Some,
    ensures
        length_decoded(s + t) == length_decoded(s),
{
    lemma_be_prefix_agree(s + t, s, 8);
    let n = be_value(s);
    assert((s + t).subrange(8, 8 + n) =~= s.subrange(8, 8 + n));
}

/// Until its last byte has arrived, a frame decodes to nothing.
pub proof fn length_frame_incomplete(payload: Seq<u8>, k: int)
    requires
        payload.len() <= u64::MAX,
        0 <= k < length_frame(payload).len(),
    ensures
        length_decoded(length_frame(payload).subrange(0, k)) is None,
{
    let s = length_frame(payload).subrange(0, k);
    if k >= 8 {
        lemma_header_of_frame(payload, s);
    }
}

/// A read step of the engine over the length codec, on a buffer (with the
/// bytes just read) that begins with a whole frame, reports that frame's
/// payload and keeps what follows it, at the end of input or not.
pub proof fn engine_reports_whole_frame(
    payload: Seq<u8>,
    rest: Seq<u8>,
    ended: bool,
    fin: Seq<u8>,
    r: ReadStep<Bytes, std::io::Error>,
)
    requires
        payload.len() <= u64::MAX,
        reads_then_decodes::<LengthCodec>(length_frame(payload) + rest, ended, fin, r),
    ensures
        r matches ReadStep::Item(b) && frozen_bytes(b) == payload,
        fin == rest,
{
    let s = length_frame(payload) + rest;
    lemma_frame_decodes(payload, rest);
    assert(s.subrange(8 + payload.len() as int, s.len() as int) =~= rest);
}

/// A read step of the engine over the length codec, on a buffer that holds
/// only the first `k` bytes of a frame, takes nothing: before the end of input
/// it asks for more bytes; at the end of input it ends the sequence when
/// nothing is buffered and reports an unexpected end otherwise.
pub proof fn engine_waits_for_whole_frame(
    payload: Seq<u8>,
    k: int,
    ended: bool,
    fin: Seq<u8>,
    r: ReadStep<Bytes, std::io::Error>,
)
    requires
        payload.len() <= u64::MAX,
        0 <= k < length_frame(payload).len(),
        reads_then_decodes::<LengthCodec>(length_frame(payload).subrange(0, k), ended, fin, r),
    ensures
        fin == length_frame(payload).subrange(0, k),
        !ended ==> r is NeedBytes,
        ended && k == 0 ==> r is End,
        ended && k > 0 ==> r is UnexpectedEof,
{
    length_frame_incomplete(payload, k);
}

impl Encoder for LengthCodec {
    type Item = Bytes;
    type Error = std::io::Error;

    open spec fn encodes(item: Bytes, before: Seq<u8>, after: Seq<u8>, res: Result<(), std::io::Error>) -> bool {
        length_encodes(item, before, after, res)
    }

    fn encode(&mut self, src: Bytes, dst: &mut BytesMut) -> (r: Result<(), std::io::Error>) {
        if !fits_frame(buf_slice(dst).len(), frozen_slice(&src).len()) {
            return Err(oversize_error());
        }
        encode_length(frozen_slice(&src), dst);
        assert(buf_bytes(*old(dst)).is_prefix_of(buf_bytes(*dst)));
        Ok(())
    }
}

impl Decoder for LengthCodec {
    type Item = Bytes;
    type Error = std::io::Error;

    open spec fn decodes(before: Seq<u8>, after: Seq<u8>, res: Result<Option<Bytes>, std::io::Error>) -> bool {
        length_decodes(before, after, res)
    }

    fn decode(&mut self, src: &mut BytesMut) -> (r: Result<Option<Bytes>, std::io::Error>) {
        let r = decode_length(src);
        proof {
            let before = buf_bytes(*old(src));
            let after = buf_bytes(*src);
            assert(after =~= before.subrange(before.len() - after.len(), before.len() as int));
        }
        Ok(r)
    }
}

} // verus!
