//! The byte buffers of the engines: `bytes::BytesMut` for the growing read and
//! write buffers and `bytes::Bytes` for the frozen frames handed to callers.
use vstd::prelude::*;

use bytes::{Bytes, BytesMut};
use bytes::{Buf, BufMut};

verus! {

#[verifier::external_type_specification]
#[verifier::external_body]
pub struct ExBytesMut(bytes::BytesMut);

#[verifier::external_type_specification]
#[verifier::external_body]
pub struct ExBytes(bytes::Bytes);

/// The bytes that a growable buffer holds, front first.
pub uninterp spec fn buf_bytes(b: BytesMut) -> Seq<u8>;

/// The bytes that a frozen handle holds, front first.
pub uninterp spec fn frozen_bytes(b: Bytes) -> Seq<u8>;

/// Relies on `BytesMut::with_capacity`: a new buffer is empty.
#[verifier::external_body]
pub(crate) fn buf_with_capacity(capacity: usize) -> (r: BytesMut)
    ensures
        buf_bytes(r) == Seq::<u8>::empty(),
{
    BytesMut::with_capacity(capacity)
}

/// Relies on `<BytesMut as AsRef<[u8]>>::as_ref`: the slice holds the buffer's bytes.
#[verifier::external_body]
pub(crate) fn buf_slice(b: &BytesMut) -> (r: &[u8])
    ensures
        r@ == buf_bytes(*b),
{
    b.as_ref()
}

/// Relies on `<Bytes as AsRef<[u8]>>::as_ref`: the slice holds the handle's bytes.
#[verifier::external_body]
pub(crate) fn frozen_slice(b: &Bytes) -> (r: &[u8])
    ensures
        r@ == frozen_bytes(*b),
{
    b.as_ref()
}

/// Relies on `BytesMut::extend_from_slice`: the bytes are appended at the back.
/// It panics when the buffer would grow past `isize::MAX` bytes.
#[verifier::external_body]
pub(crate) fn buf_extend(b: &mut BytesMut, s: &[u8])
    requires
        buf_bytes(*old(b)).len() + s@.len() <= isize::MAX,
    ensures
        buf_bytes(*final(b)) == buf_bytes(*old(b)) + s@,
{
    b.extend_from_slice(s)
}

/// Relies on `BufMut::put_u64` of `BytesMut`: the eight big-endian bytes of `n`
/// are appended at the back. It panics when the buffer would grow past
/// `isize::MAX` bytes.
#[verifier::external_body]
pub(crate) fn buf_put_u64(b: &mut BytesMut, n: u64)
    requires
        buf_bytes(*old(b)).len() + 8 <= isize::MAX,
    ensures
        buf_bytes(*final(b)) == buf_bytes(*old(b)) + be_bytes(n),
{
    b.put_u64(n)
}

/// Relies on `Buf::advance` of `BytesMut`: the first `n` bytes are dropped.
#[verifier::external_body]
pub(crate) fn buf_advance(b: &mut BytesMut, n: usize)
    requires
        n <= buf_bytes(*old(b)).len(),
    ensures
        buf_bytes(*final(b)) == buf_bytes(*old(b)).subrange(n as int, buf_bytes(*old(b)).len() as int),
{
    b.advance(n)
}

/// Relies on `BytesMut::split_to` and `BytesMut::freeze`: the first `n` bytes
/// leave the buffer and come back as a frozen handle.
#[verifier::external_body]
pub(crate) fn buf_split_to(b: &mut BytesMut, n: usize) -> (r: Bytes)
    requires
        n <= buf_bytes(*old(b)).len(),
    ensures
        frozen_bytes(r) == buf_bytes(*old(b)).subrange(0, n as int),
        buf_bytes(*final(b)) == buf_bytes(*old(b)).subrange(n as int, buf_bytes(*old(b)).len() as int),
{
    b.split_to(n).freeze()
}

/// Whether `extra` more bytes fit behind `len` bytes in one buffer.
pub fn fits(len: usize, extra: usize) -> (r: bool)
    ensures
        r <==> len + extra <= isize::MAX,
{
    len <= isize::MAX as usize && extra <= (isize::MAX as usize) - len
}

/// The eight bytes of `n`, most significant first.
pub open spec fn be_bytes(n: u64) -> Seq<u8> {
    seq![
        (n >> 56u64) as u8,
        (n >> 48u64) as u8,
        (n >> 40u64) as u8,
        (n >> 32u64) as u8,
        (n >> 24u64) as u8,
        (n >> 16u64) as u8,
        (n >> 8u64) as u8,
        n as u8,
    ]
}

/// The number whose big-endian bytes are the first eight of `s`.
pub open spec fn be_value(s: Seq<u8>) -> u64
    recommends
        s.len() >= 8,
{
    be_prefix(s, 8)
}

/// The number whose big-endian bytes are the first `k` of `s`.
pub open spec fn be_prefix(s: Seq<u8>, k: nat) -> u64
    decreases k,
{
    if k == 0 {
        0
    } else {
        (be_prefix(s, (k - 1) as nat) << 8u64) | (s[k - 1] as u64)
    }
}

/// Reading back the eight bytes that `be_bytes` writes gives the number again.
pub proof fn lemma_be_value_of_be_bytes(n: u64)
    ensures
        be_value(be_bytes(n)) == n,
{
    reveal_with_fuel(be_prefix, 9);
    let b = be_bytes(n);
    let p1 = b[0] as u64;
    let p2 = (p1 << 8u64) | (b[1] as u64);
    let p3 = (p2 << 8u64) | (b[2] as u64);
    let p4 = (p3 << 8u64) | (b[3] as u64);
    let p5 = (p4 << 8u64) | (b[4] as u64);
    let p6 = (p5 << 8u64) | (b[5] as u64);
    let p7 = (p6 << 8u64) | (b[6] as u64);
    let p8 = (p7 << 8u64) | (b[7] as u64);
    assert(be_prefix(b, 1) == p1) by {
        assert((0u64 << 8u64) | (b[0] as u64) == b[0] as u64) by (bit_vector);
    }
    assert(p8 == n) by (bit_vector)
        requires
            p1 == ((n >> 56u64) as u8) as u64,
            p2 == (p1 << 8u64) | (((n >> 48u64) as u8) as u64),
            p3 == (p2 << 8u64) | (((n >> 40u64) as u8) as u64),
            p4 == (p3 << 8u64) | (((n >> 32u64) as u8) as u64),
            p5 == (p4 << 8u64) | (((n >> 24u64) as u8) as u64),
            p6 == (p5 << 8u64) | (((n >> 16u64) as u8) as u64),
            p7 == (p6 << 8u64) | (((n >> 8u64) as u8) as u64),
            p8 == (p7 << 8u64) | ((n as u8) as u64),
    ;
}

/// Two sequences that agree on their first `k` bytes have the same `k`-byte prefix value.
pub proof fn lemma_be_prefix_agree(a: Seq<u8>, b: Seq<u8>, k: nat)
    requires
        k <= a.len(),
        k <= b.len(),
        forall|i: int| 0 <= i < k ==> a[i] == b[i],
    ensures
        be_prefix(a, k) == be_prefix(b, k),
    decreases k,
{
    if k > 0 {
        lemma_be_prefix_agree(a, b, (k - 1) as nat);
    }
}

/// Reads the big-endian number held in the first eight bytes of `s`.
pub fn read_be_u64(s: &[u8]) -> (r: u64)
    requires
        s@.len() >= 8,
    ensures
        r == be_value(s@),
{
    let mut r: u64 = 0;
    let mut i: usize = 0;
    while i < 8
        invariant
            i <= 8,
            s@.len() >= 8,
            r == be_prefix(s@, i as nat),
        decreases 8 - i,
    {
        r = (r << 8u64) | (s[i] as u64);
        i = i + 1;
    }
    r
}

} // verus!
