//! Serde records, each serialized with bincode into one length-prefixed frame.
use vstd::prelude::*;

use super::length::{
    decode_length, encode_length, fits_frame, length_decoded, length_frame, LengthCodec,
};
use crate::io_error::oversize_error;
use crate::buf::{buf_bytes, buf_slice, frozen_slice};
use bytes::BytesMut;
use std::marker::PhantomData;

verus! {

#[verifier::external_type_specification]
#[verifier::external_body]
pub struct ExBincodeErrorKind(bincode::ErrorKind);

/// Relies on `bincode::serialize`: the bytes of `value`.
#[verifier::external_body]
fn bincode_serialize<T: serde::Serialize>(value: &T) -> (r: Result<Vec<u8>, Box<bincode::ErrorKind>>) {
    bincode::serialize(value)
}

/// Relies on `bincode::deserialize`: the value whose bytes are `bytes`.
#[verifier::external_body]
fn bincode_deserialize<T: serde::de::DeserializeOwned>(bytes: &[u8]) -> (r: Result<
    T,
    Box<bincode::ErrorKind>,
>) {
    bincode::deserialize(bytes)
}

/// Relies on `bincode::ErrorKind`: an I/O failure inside is handed on as it
/// is, any other error becomes an I/O error of kind `InvalidData`.
#[verifier::external_body]
fn to_io_err(err: Box<bincode::ErrorKind>) -> (r: std::io::Error) {
    match *err {
        bincode::ErrorKind::Io(e) => e,
        other => std::io::Error::new(std::io::ErrorKind::InvalidData, other),
    }
}

/// What the codec does with the outcome of serializing a record: its bytes
/// are appended as one length-prefixed frame when the frame fits; otherwise,
/// or when serializing failed, the buffer stays as it was and an error comes.
pub fn append_record(dst: &mut BytesMut, res: Result<Vec<u8>, Box<bincode::ErrorKind>>) -> (r: Result<
    (),
    std::io::Error,
>)
    ensures
        res matches Ok(v) ==> (buf_bytes(*old(dst)).len() + 8 + v@.len() <= isize::MAX ==> (r is Ok
            && buf_bytes(*final(dst)) == buf_bytes(*old(dst)) + length_frame(v@))),
        res matches Ok(v) ==> (buf_bytes(*old(dst)).len() + 8 + v@.len() > isize::MAX ==> (r is Err
            && buf_bytes(*final(dst)) == buf_bytes(*old(dst)))),
        res is Err ==> (r is Err && buf_bytes(*final(dst)) == buf_bytes(*old(dst))),
{
    match res {
        Ok(data) => {
            if !fits_frame(buf_slice(dst).len(), data.len()) {
                return Err(oversize_error());
            }
            encode_length(data.as_slice(), dst);
            Ok(())
        },
        Err(e) => Err(to_io_err(e)),
    }
}

/// A codec of serde records, built on the length-prefixed codec.
pub struct SerdeCodec<T> {
    inner: LengthCodec,
    phantom: PhantomData<T>,
}

impl<T> Default for SerdeCodec<T> {
    fn default() -> (r: Self)
        ensures
            r == Self::fresh(),
    {
        SerdeCodec { inner: LengthCodec, phantom: PhantomData }
    }
}

impl<T> SerdeCodec<T> {
    /// The codec as `default` makes it.
    pub closed spec fn fresh() -> Self {
        SerdeCodec { inner: LengthCodec, phantom: PhantomData }
    }

    /// Serializes `src` and appends it as one length-prefixed frame; on a
    /// serialization failure nothing is appended.
    pub fn encode(&mut self, src: T, dst: &mut BytesMut) -> (r: Result<(), std::io::Error>)
        where
            T: serde::Serialize,
        ensures
            r is Ok ==> exists|payload: Seq<u8>|
                buf_bytes(*final(dst)) == buf_bytes(*old(dst)) + length_frame(payload),
            r is Err ==> buf_bytes(*final(dst)) == buf_bytes(*old(dst)),
    {
        append_record(dst, bincode_serialize(&src))
    }

    /// Takes one length-prefixed frame and deserializes its payload. While the
    /// frame is incomplete nothing is taken and no item comes out.
    pub fn decode(&mut self, src: &mut BytesMut) -> (r: Result<Option<T>, std::io::Error>)
        where
            T: serde::de::DeserializeOwned,
        ensures
            match length_decoded(buf_bytes(*old(src))) {
                None => r matches Ok(None) && buf_bytes(*final(src)) == buf_bytes(*old(src)),
                Some((payload, k)) => {
                    &&& !(r matches Ok(None))
                    &&& buf_bytes(*final(src)) == buf_bytes(*old(src)).subrange(
                        k as int,
                        buf_bytes(*old(src)).len() as int,
                    )
                },
            },
    {
        match decode_length(src) {
            Some(bytes) => match bincode_deserialize(frozen_slice(&bytes)) {
                Ok(item) => Ok(Some(item)),
                Err(e) => Err(to_io_err(e)),
            },
            None => Ok(None),
        }
    }
}

} // verus!
