//! A compact binary codec for movie records that stays decodable across
//! schema evolution.
//!
//! The wire format writes a text field as a 4-byte little-endian length
//! prefix followed by that many UTF-8 bytes, a genre as its one stable
//! discriminant byte, and a record as the concatenation of its fields in
//! declared order. A decode attempt succeeds only when it consumes the
//! whole buffer. On top of the per-shape codecs, a compatibility resolver
//! tries the current shape first and falls back to the legacy shape, so a
//! single caller can read both formats without knowing which was written.

pub mod codec;
pub mod laws;
pub mod records;
pub mod resolver;
pub mod wire;

pub use codec::{
    decode_current, decode_legacy, decode_versioned, encode_current, encode_legacy,
    encode_versioned,
};
pub use records::{DecodeError, DecodedRecord, Genre, LegacyMovie, Movie, MovieV2, ShapeError};
pub use resolver::resolve;
