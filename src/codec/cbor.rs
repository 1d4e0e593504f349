//! Self-delimiting CBOR records.
use vstd::prelude::*;

use crate::buf::{buf_advance, buf_bytes, buf_extend, buf_slice, fits};
use crate::io_error::oversize_error;
use crate::decoder::drops_prefix;
use bytes::BytesMut;
use std::marker::PhantomData;

verus! {

#[verifier::external_type_specification]
#[verifier::external_body]
pub struct ExCborError(serde_cbor::Error);

/// Whether a CBOR error says that the input ended before a value was complete.
pub uninterp spec fn cbor_eof(e: serde_cbor::Error) -> bool;

/// Relies on `serde_cbor::Error::is_eof`: whether the input ended before a
/// value was complete, which depends on the error alone.
pub assume_specification[ serde_cbor::Error::is_eof ](e: &serde_cbor::Error) -> (r: bool)
    ensures
        r == cbor_eof(*e),
;

/// Relies on `serde_cbor::Deserializer::from_slice`, `Deserialize::deserialize`
/// and `Deserializer::byte_offset`: one value read from the front of `bytes`,
/// and how far the reader got.
#[verifier::external_body]
fn cbor_read_front<Dec: serde::de::DeserializeOwned>(bytes: &[u8]) -> (r: (Result<Dec, serde_cbor::Error>, usize)) {
    let mut de = serde_cbor::Deserializer::from_slice(bytes);
    let res = serde::de::Deserialize::deserialize(&mut de);
    (res, de.byte_offset())
}

/// Relies on `serde_cbor::to_vec`: the CBOR bytes of `value`, fields by name.
#[verifier::external_body]
fn cbor_to_vec<Enc: serde::Serialize>(value: &Enc) -> (r: Result<Vec<u8>, serde_cbor::Error>) {
    serde_cbor::to_vec(value)
}

/// Relies on `serde_cbor::ser::to_vec_packed`: the CBOR bytes of `value`, fields by index.
#[verifier::external_body]
fn cbor_to_vec_packed<Enc: serde::Serialize>(value: &Enc) -> (r: Result<Vec<u8>, serde_cbor::Error>) {
    serde_cbor::ser::to_vec_packed(value)
}

/// A codec of CBOR values: `Enc` is the type encoded, `Dec` the type decoded.
pub struct CborCodec<Enc, Dec> {
    enc: PhantomData<Enc>,
    dec: PhantomData<Dec>,
    packed: bool,
}

/// The errors of the CBOR codec.
#[derive(Debug)]
pub enum CborCodecError {
    /// An I/O failure.
    Io(std::io::Error),
    /// A CBOR failure.
    Cbor(serde_cbor::Error),
}

impl From<std::io::Error> for CborCodecError {
    fn from(e: std::io::Error) -> (r: CborCodecError) {
        CborCodecError::Io(e)
    }
}

impl vstd::std_specs::convert::FromSpecImpl<std::io::Error> for CborCodecError {
    open spec fn obeys_from_spec() -> bool {
        true
    }

    open spec fn from_spec(v: std::io::Error) -> CborCodecError {
        CborCodecError::Io(v)
    }
}

impl From<serde_cbor::Error> for CborCodecError {
    fn from(e: serde_cbor::Error) -> (r: CborCodecError) {
        CborCodecError::Cbor(e)
    }
}

impl vstd::std_specs::convert::FromSpecImpl<serde_cbor::Error> for CborCodecError {
    open spec fn obeys_from_spec() -> bool {
        true
    }

    open spec fn from_spec(v: serde_cbor::Error) -> CborCodecError {
        CborCodecError::Cbor(v)
    }
}

impl<Enc, Dec> CborCodec<Enc, Dec> {
    /// Whether values are encoded in the packed format.
    pub closed spec fn is_packed(&self) -> bool {
        self.packed
    }

    /// Creates a codec that writes field and variant names as strings.
    pub fn new() -> (r: CborCodec<Enc, Dec>)
        ensures
            !r.is_packed(),
    {
        CborCodec { enc: PhantomData, dec: PhantomData, packed: false }
    }

    /// With `true`, field and variant names are replaced by numeric indices.
    pub fn set_packed(self, packed: bool) -> (r: Self)
        ensures
            r.is_packed() == packed,
    {
        let mut s = self;
        s.packed = packed;
        s
    }
}

/// What one attempt to read a value becomes: a value is an item, an input
/// that ended too early is no item yet, any other failure is an error.
pub fn cbor_outcome<Dec>(res: Result<Dec, serde_cbor::Error>) -> (r: Result<Option<Dec>, CborCodecError>)
    ensures
        res matches Ok(v) ==> r == Ok::<Option<Dec>, CborCodecError>(Some(v)),
        res matches Err(e) ==> (cbor_eof(e) ==> r == Ok::<Option<Dec>, CborCodecError>(None)),
        res matches Err(e) ==> (!cbor_eof(e) ==> r == Err::<Option<Dec>, CborCodecError>(
            CborCodecError::Cbor(e),
        )),
{
    match res {
        Ok(v) => Ok(Some(v)),
        Err(e) => {
            if e.is_eof() {
                Ok(None)
            } else {
                Err(CborCodecError::Cbor(e))
            }
        },
    }
}

/// What the codec does with one attempt to read a value from the front of
/// `buf` that went `offset` bytes far. An input that ended too early leaves
/// the buffer as it is, to be read again once more bytes arrived. Otherwise
/// the bytes the reader went through (at most all of them) leave the buffer,
/// and the value is the item, or the failure the error.
pub fn settle_read<Dec>(buf: &mut BytesMut, res: Result<Dec, serde_cbor::Error>, offset: usize) -> (r:
    Result<Option<Dec>, CborCodecError>)
    ensures
        ({
            let before = buf_bytes(*old(buf));
            let n = if offset <= before.len() {
                offset as int
            } else {
                before.len() as int
            };
            if res matches Err(e) && cbor_eof(e) {
                buf_bytes(*final(buf)) == before
            } else {
                buf_bytes(*final(buf)) == before.subrange(n, before.len() as int)
            }
        }),
        res matches Ok(v) ==> r == Ok::<Option<Dec>, CborCodecError>(Some(v)),
        res matches Err(e) ==> (cbor_eof(e) ==> r == Ok::<Option<Dec>, CborCodecError>(None)),
        res matches Err(e) ==> (!cbor_eof(e) ==> r == Err::<Option<Dec>, CborCodecError>(
            CborCodecError::Cbor(e),
        )),
{
    let len = buf_slice(buf).len();
    let r = cbor_outcome(res);
    match r {
        Ok(None) => r,
        _ => {
            let n = if offset <= len {
                offset
            } else {
                len
            };
            buf_advance(buf, n);
            r
        },
    }
}

/// What the codec does with the outcome of serializing a value: its bytes are
/// appended when they fit, an oversized buffer is an I/O error, and a failed
/// serialization is a CBOR error; on an error the buffer stays as it was.
pub fn append_encoded(buf: &mut BytesMut, res: Result<Vec<u8>, serde_cbor::Error>) -> (r: Result<
    (),
    CborCodecError,
>)
    ensures
        res matches Ok(v) ==> (buf_bytes(*old(buf)).len() + v@.len() <= isize::MAX ==> (r is Ok
            && buf_bytes(*final(buf)) == buf_bytes(*old(buf)) + v@)),
        res matches Ok(v) ==> (buf_bytes(*old(buf)).len() + v@.len() > isize::MAX ==> (r matches Err(
            CborCodecError::Io(_),
        ) && buf_bytes(*final(buf)) == buf_bytes(*old(buf)))),
        res matches Err(e) ==> (r == Err::<(), CborCodecError>(CborCodecError::Cbor(e))
            && buf_bytes(*final(buf)) == buf_bytes(*old(buf))),
{
    match res {
        Ok(v) => {
            if !fits(buf_slice(buf).len(), v.len()) {
                return Err(CborCodecError::Io(oversize_error()));
            }
            buf_extend(buf, v.as_slice());
            Ok(())
        },
        Err(e) => Err(CborCodecError::Cbor(e)),
    }
}

impl<Enc, Dec> CborCodec<Enc, Dec> {
    /// Reads one value from the front of the buffer and drops the bytes the
    /// reader went through, whatever the outcome.
    pub fn decode(&mut self, buf: &mut BytesMut) -> (r: Result<Option<Dec>, CborCodecError>)
        where
            Dec: serde::de::DeserializeOwned,
        ensures
            drops_prefix(buf_bytes(*old(buf)), buf_bytes(*final(buf))),
    {
        let (res, offset) = cbor_read_front::<Dec>(buf_slice(buf));
        let r = settle_read(buf, res, offset);
        proof {
            let before = buf_bytes(*old(buf));
            let after = buf_bytes(*buf);
            assert(after =~= before.subrange(before.len() - after.len(), before.len() as int));
        }
        r
    }

    /// Appends the CBOR bytes of `data`, packed or not as the codec was set.
    pub fn encode(&mut self, data: Enc, buf: &mut BytesMut) -> (r: Result<(), CborCodecError>)
        where
            Enc: serde::Serialize,
        ensures
            buf_bytes(*old(buf)).is_prefix_of(buf_bytes(*final(buf))),
            r is Err ==> buf_bytes(*final(buf)) == buf_bytes(*old(buf)),
    {
        let j = if self.packed {
            cbor_to_vec_packed(&data)
        } else {
            cbor_to_vec(&data)
        };
        let r = append_encoded(buf, j);
        assert(buf_bytes(*old(buf)).is_prefix_of(buf_bytes(*buf)));
        r
    }
}

} // verus!
