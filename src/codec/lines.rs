//! Newline-delimited UTF-8 text.
use vstd::prelude::*;

use crate::buf::{buf_bytes, buf_extend, buf_slice, buf_split_to, fits, frozen_slice};
use crate::io_error::oversize_error;
use crate::decoder::{drops_prefix, Decoder};
use crate::encoder::Encoder;
use bytes::BytesMut;
use vstd::slice::slice_to_vec;
use vstd::utf8::{
    char_is_scalar, char_u32_cast, decode_utf8, encode_scalar, encode_utf8, encode_utf8_decode_utf8,
    encode_utf8_valid_utf8, has_width_1_encoding, has_width_2_encoding, has_width_3_encoding,
    valid_utf8,
};

verus! {

/// The byte that ends a line.
pub const NEWLINE: u8 = 10;

/// A codec that splits data into lines; each line keeps its `\n`.
pub struct LinesCodec {}

/// Relies on `memchr::memchr`: the index of the first occurrence of `needle`.
#[verifier::external_body]
fn find_byte(needle: u8, haystack: &[u8]) -> (r: Option<usize>)
    ensures
        r matches Some(i) ==> (i < haystack@.len() && haystack@[i as int] == needle && forall|j: int|
            0 <= j < i ==> haystack@[j] != needle),
        r is None ==> forall|j: int| 0 <= j < haystack@.len() ==> haystack@[j] != needle,
{
    memchr::memchr(needle, haystack)
}

/// Relies on `String::from_utf8`: it succeeds exactly on valid UTF-8 and then
/// holds the decoded characters; its error is carried as an I/O error of kind
/// `InvalidData`.
#[verifier::external_body]
fn utf8_string(v: Vec<u8>) -> (r: Result<String, std::io::Error>)
    ensures
        r is Ok <==> valid_utf8(v@),
        r matches Ok(s) ==> s@ == decode_utf8(v@),
{
    match String::from_utf8(v) {
        Ok(s) => Ok(s),
        Err(e) => Err(std::io::Error::new(std::io::ErrorKind::InvalidData, e)),
    }
}

/// `i` is the index of the first newline of `s`.
pub open spec fn first_newline(s: Seq<u8>, i: int) -> bool {
    &&& 0 <= i < s.len()
    &&& s[i] == NEWLINE
    &&& forall|j: int| 0 <= j < i ==> s[j] != NEWLINE
}

/// What one decode of the newline codec does: without a newline nothing is
/// taken and no item comes; otherwise the first line, newline included, leaves
/// the buffer and is the item when it is UTF-8, an error when it is not.
pub open spec fn line_decodes(before: Seq<u8>, after: Seq<u8>, res: Result<Option<String>, std::io::Error>) -> bool {
    &&& (forall|j: int| 0 <= j < before.len() ==> before[j] != NEWLINE) ==> ((res matches Ok(None))
        && after == before)
    &&& forall|i: int|
        #![trigger first_newline(before, i)]
        first_newline(before, i) ==> {
            let line = before.subrange(0, i + 1);
            &&& after == before.subrange(i + 1, before.len() as int)
            &&& (res is Ok <==> valid_utf8(line))
            &&& (res matches Ok(o) ==> (o matches Some(s) && s@ == decode_utf8(line)))
        }
}

/// What one encode of the newline codec does: the UTF-8 bytes of the string
/// are appended, unless the buffer would grow past `isize::MAX` bytes.
pub open spec fn line_encodes(item: String, before: Seq<u8>, after: Seq<u8>, res: Result<(), std::io::Error>) -> bool {
    if before.len() + encode_utf8(item@).len() <= isize::MAX {
        res is Ok && after == before + encode_utf8(item@)
    } else {
        res is Err && after == before
    }
}

/// Takes the first line of `src`, newline included, as a string. Without a
/// newline nothing is taken; a line that is not UTF-8 is taken and reported
/// as an error.
pub fn decode_line(src: &mut BytesMut) -> (r: Result<Option<String>, std::io::Error>)
    ensures
        drops_prefix(buf_bytes(*old(src)), buf_bytes(*final(src))),
        (forall|j: int| 0 <= j < buf_bytes(*old(src)).len() ==> buf_bytes(*old(src))[j] != NEWLINE)
            ==> (r matches Ok(None) && buf_bytes(*final(src)) == buf_bytes(*old(src))),
        forall|i: int|
            #![trigger first_newline(buf_bytes(*old(src)), i)]
            first_newline(buf_bytes(*old(src)), i) ==> {
                let line = buf_bytes(*old(src)).subrange(0, i + 1);
                &&& buf_bytes(*final(src)) == buf_bytes(*old(src)).subrange(
                    i + 1,
                    buf_bytes(*old(src)).len() as int,
                )
                &&& (r is Ok <==> valid_utf8(line))
                &&& (r matches Ok(o) ==> (o matches Some(s) && s@ == decode_utf8(line)))
            },
{
    let bytes = buf_slice(src);
    let len = bytes.len();
    match find_byte(NEWLINE, bytes) {
        Some(pos) => {
            assert(pos < len);
            let line = buf_split_to(src, pos + 1);
            proof {
                let before = buf_bytes(*old(src));
                let after = buf_bytes(*src);
                assert(after =~= before.subrange(before.len() - after.len(), before.len() as int));
            }
            let r = utf8_string(slice_to_vec(frozen_slice(&line)));
            match r {
                Ok(s) => Ok(Some(s)),
                Err(e) => Err(e),
            }
        },
        None => {
            assert(buf_bytes(*src) =~= buf_bytes(*src).subrange(0, buf_bytes(*src).len() as int));
            Ok(None)
        },
    }
}

/// Appends the UTF-8 bytes of `item` verbatim; the caller ends its lines.
pub fn encode_line(item: &String, dst: &mut BytesMut)
    requires
        buf_bytes(*old(dst)).len() + encode_utf8(item@).len() <= isize::MAX,
    ensures
        buf_bytes(*final(dst)) == buf_bytes(*old(dst)) + encode_utf8(item@),
{
    buf_extend(dst, item.as_str().as_bytes());
}

/// The first line of a buffer is the same whatever bytes arrive after it.
pub proof fn line_prefix_stable(s: Seq<u8>, t: Seq<u8>, i: int)
    requires
        first_newline(s, i),
    ensures
        first_newline(s + t, i),
        (s + t).subrange(0, i + 1) == s.subrange(0, i + 1),
{
    assert((s + t).subrange(0, i + 1) =~= s.subrange(0, i + 1));
}

/// A buffer without a newline stays without one until a newline arrives.
pub proof fn no_line_until_newline(s: Seq<u8>, t: Seq<u8>)
    requires
        forall|j: int| 0 <= j < s.len() ==> s[j] != NEWLINE,
        forall|j: int| 0 <= j < t.len() ==> t[j] != NEWLINE,
    ensures
        forall|j: int| 0 <= j < (s + t).len() ==> (s + t)[j] != NEWLINE,
{
    assert forall|j: int| 0 <= j < (s + t).len() implies (s + t)[j] != NEWLINE by {
        if j >= s.len() {
            assert((s + t)[j] == t[j - s.len()]);
        }
    }
}

/// The UTF-8 bytes of a character other than the newline hold no newline byte.
proof fn lemma_scalar_has_no_newline(c: char)
    requires
        c != '\n',
    ensures
        forall|j: int|
            0 <= j < encode_scalar(c as u32).len() ==> #[trigger] encode_scalar(c as u32)[j]
                != NEWLINE,
{
    let s = c as u32;
    char_is_scalar(c);
    char_u32_cast(c, s);
    char_u32_cast('\n', 10u32);
    assert(s != 10u32);
    if has_width_1_encoding(s) {
        assert(((s & 0x7F) as u8) != 10u8) by (bit_vector)
            requires
                s <= 0x7F,
                s != 10u32,
        ;
    } else {
        assert((0x80u8 | ((s & 0x3F) as u8)) != 10u8) by (bit_vector);
        assert((0x80u8 | (((s >> 6u32) & 0x3F) as u8)) != 10u8) by (bit_vector);
        assert((0x80u8 | (((s >> 12u32) & 0x3F) as u8)) != 10u8) by (bit_vector);
        assert((0xC0u8 | (((s >> 6u32) & 0x1F) as u8)) != 10u8) by (bit_vector);
        assert((0xE0u8 | (((s >> 12u32) & 0x0F) as u8)) != 10u8) by (bit_vector);
        assert((0xF0u8 | (((s >> 18u32) & 0x7) as u8)) != 10u8) by (bit_vector);
    }
}

proof fn lemma_encode_concat(a: Seq<char>, b: Seq<char>)
    ensures
        encode_utf8(a + b) == encode_utf8(a) + encode_utf8(b),
    decreases a.len(),
{
    if a.len() == 0 {
        assert(a + b =~= b);
        assert(encode_utf8(a) + encode_utf8(b) =~= encode_utf8(b));
    } else {
        lemma_encode_concat(a.drop_first(), b);
        assert((a + b).drop_first() =~= a.drop_first() + b);
        assert((a + b)[0] == a[0]);
        assert(encode_utf8(a + b) =~= encode_utf8(a) + encode_utf8(b));
    }
}

proof fn lemma_encode_no_newline(a: Seq<char>)
    requires
        forall|i: int| 0 <= i < a.len() ==> a[i] != '\n',
    ensures
        forall|j: int| 0 <= j < encode_utf8(a).len() ==> encode_utf8(a)[j] != NEWLINE,
    decreases a.len(),
{
    if a.len() > 0 {
        let head = encode_scalar(a[0] as u32);
        let tail = encode_utf8(a.drop_first());
        lemma_scalar_has_no_newline(a[0]);
        lemma_encode_no_newline(a.drop_first());
        assert forall|j: int| 0 <= j < encode_utf8(a).len() implies encode_utf8(a)[j] != NEWLINE by {
            if j < head.len() {
                assert(encode_utf8(a)[j] == head[j]);
            } else {
                assert(encode_utf8(a)[j] == tail[j - head.len()]);
            }
        }
    }
}

/// A line whose only newline is its last character, once encoded and followed
/// by any bytes, is found whole as the first line, is valid UTF-8, and decodes
/// back to the same characters.
pub proof fn line_round_trip(line: Seq<char>, rest: Seq<u8>)
    requires
        line.len() > 0,
        line.last() == '\n',
        forall|i: int| 0 <= i < line.len() - 1 ==> line[i] != '\n',
    ensures
        ({
            let s = encode_utf8(line) + rest;
            let k = encode_utf8(line).len() as int;
            &&& first_newline(s, k - 1)
            &&& valid_utf8(s.subrange(0, k))
            &&& decode_utf8(s.subrange(0, k)) == line
        }),
{
    let body = line.drop_last();
    let nl = seq!['\n'];
    assert(line =~= body + nl);
    lemma_encode_concat(body, nl);
    char_u32_cast('\n', 10u32);
    assert(((10u32 & 0x7F) as u8) == 10u8) by (bit_vector);
    assert(nl.drop_first() =~= Seq::<char>::empty());
    assert(('\n' as u32) == 10u32);
    assert(encode_scalar(10u32) =~= seq![10u8]);
    assert(encode_utf8(nl.drop_first()) =~= Seq::<u8>::empty());
    assert(encode_utf8(nl) =~= seq![10u8]);
    lemma_encode_no_newline(body);
    let eb = encode_utf8(body);
    let s = encode_utf8(line) + rest;
    let k = encode_utf8(line).len() as int;
    assert(k == eb.len() + 1);
    assert(s[k - 1] == NEWLINE);
    assert forall|j: int| 0 <= j < k - 1 implies s[j] != NEWLINE by {
        assert(s[j] == eb[j]);
    }
    assert(s.subrange(0, k) =~= encode_utf8(line));
    encode_utf8_valid_utf8(line);
    encode_utf8_decode_utf8(line);
}

impl Encoder for LinesCodec {
    type Item = String;
    type Error = std::io::Error;

    open spec fn encodes(item: String, before: Seq<u8>, after: Seq<u8>, res: Result<(), std::io::Error>) -> bool {
        line_encodes(item, before, after, res)
    }

    fn encode(&mut self, item: String, dst: &mut BytesMut) -> (r: Result<(), std::io::Error>) {
        if !fits(buf_slice(dst).len(), item.as_str().as_bytes().len()) {
            return Err(oversize_error());
        }
        encode_line(&item, dst);
        assert(buf_bytes(*old(dst)).is_prefix_of(buf_bytes(*dst)));
        Ok(())
    }
}

impl Decoder for LinesCodec {
    type Item = String;
    type Error = std::io::Error;

    open spec fn decodes(before: Seq<u8>, after: Seq<u8>, res: Result<Option<String>, std::io::Error>) -> bool {
        line_decodes(before, after, res)
    }

    fn decode(&mut self, src: &mut BytesMut) -> (r: Result<Option<String>, std::io::Error>) {
        decode_line(src)
    }
}

} // verus!
