//! Reference codecs: raw bytes, length-prefixed frames, newline-delimited
//! text, CBOR values and bincode records.
pub mod raw;
pub use self::raw::{decode_raw, encode_raw, BytesCodec};

pub mod length;
pub use self::length::{decode_length, encode_length, LengthCodec};

pub mod lines;
pub use self::lines::{decode_line, encode_line, LinesCodec};

pub mod cbor;
pub use self::cbor::{append_encoded, cbor_outcome, settle_read, CborCodec, CborCodecError};

pub mod records;
pub use self::records::{append_record, SerdeCodec};
