//! The mathematical model of the wire format: the exact byte sequence each
//! record shape encodes to, and the parse functions every decoder is
//! specified against.
use vstd::bytes::{spec_u32_from_le_bytes, spec_u32_to_le_bytes};
use vstd::prelude::*;
use vstd::utf8::{encode_utf8, valid_utf8};

use crate::records::{Genre, LegacyMovie, Movie, MovieV2, ShapeError, genre_disc, genre_of_disc};

verus! {

/// A text field on the wire: a 4-byte little-endian byte-count prefix
/// followed by the raw content bytes, with no terminator and no padding.
/// Meaningful only when the content fits the 4-byte prefix.
pub open spec fn text_enc(content: Seq<u8>) -> Seq<u8> {
    spec_u32_to_le_bytes(content.len() as u32) + content
}

/// The legacy shape on the wire: title, then the genre discriminant byte.
pub open spec fn legacy_enc_bytes(title: Seq<u8>, g: Genre) -> Seq<u8> {
    text_enc(title) + seq![genre_disc(g)]
}

/// The current shape on the wire: title, genre discriminant byte, then
/// the trailing reference text field.
pub open spec fn current_enc_bytes(title: Seq<u8>, g: Genre, reference: Seq<u8>) -> Seq<u8> {
    text_enc(title) + seq![genre_disc(g)] + text_enc(reference)
}

/// The legacy shape's encoding of a title given as characters.
pub open spec fn legacy_enc(title: Seq<char>, g: Genre) -> Seq<u8> {
    legacy_enc_bytes(encode_utf8(title), g)
}

/// The current shape's encoding of its text fields given as characters.
pub open spec fn current_enc(title: Seq<char>, g: Genre, reference: Seq<char>) -> Seq<u8> {
    current_enc_bytes(encode_utf8(title), g, encode_utf8(reference))
}

/// The explicit-envelope encoding: the variant's tag byte, then the
/// variant's struct encoding.
pub open spec fn versioned_enc(m: Movie) -> Seq<u8> {
    match m {
        Movie::V1(r) => seq![0u8] + legacy_enc(r.title@, r.genre),
        Movie::V2(r) => seq![1u8] + current_enc(r.title@, r.genre, r.imdb_url@),
    }
}

/// A legacy record is representable on the wire: its title's UTF-8
/// byte count fits the 4-byte length prefix.
pub open spec fn legacy_valid(r: LegacyMovie) -> bool {
    encode_utf8(r.title@).len() <= u32::MAX
}

/// A current record is representable on the wire: both text fields'
/// UTF-8 byte counts fit their 4-byte length prefixes.
pub open spec fn current_valid(r: MovieV2) -> bool {
    encode_utf8(r.title@).len() <= u32::MAX && encode_utf8(r.imdb_url@).len() <= u32::MAX
}

/// An enveloped record is representable on the wire.
pub open spec fn movie_valid(m: Movie) -> bool {
    match m {
        Movie::V1(r) => legacy_valid(r),
        Movie::V2(r) => current_valid(r),
    }
}

/// Reads one text field off the front of the buffer. Returns the content
/// bytes and the unread remainder, or `Truncated` when either the length
/// prefix or the declared content extends past the end of the buffer.
pub open spec fn parse_text(b: Seq<u8>) -> Result<(Seq<u8>, Seq<u8>), ShapeError> {
    if b.len() < 4 {
        Err(ShapeError::Truncated)
    } else {
        let n = spec_u32_from_le_bytes(b.subrange(0, 4)) as int;
        if b.len() < 4 + n {
            Err(ShapeError::Truncated)
        } else {
            Ok((b.subrange(4, 4 + n), b.subrange(4 + n, b.len() as int)))
        }
    }
}

/// Reads one genre discriminant byte off the front of the buffer.
/// Any byte outside the declared range is `InvalidDiscriminant`.
pub open spec fn parse_genre(b: Seq<u8>) -> Result<(Genre, Seq<u8>), ShapeError> {
    if b.len() < 1 {
        Err(ShapeError::Truncated)
    } else if b[0] > 5 {
        Err(ShapeError::InvalidDiscriminant)
    } else {
        Ok((genre_of_disc(b[0]), b.subrange(1, b.len() as int)))
    }
}

/// Parses a whole buffer as the legacy shape, enforcing the
/// full-consumption rule: bytes left over after the last field are an
/// error, never silently dropped. Yields the raw title bytes.
pub open spec fn legacy_frame(b: Seq<u8>) -> Result<(Seq<u8>, Genre), ShapeError> {
    match parse_text(b) {
        Err(e) => Err(e),
        Ok((title, r1)) => match parse_genre(r1) {
            Err(e) => Err(e),
            Ok((g, r2)) => if r2.len() == 0 {
                Ok((title, g))
            } else {
                Err(ShapeError::TrailingBytes)
            },
        },
    }
}

/// Parses a whole buffer as the current shape under the same
/// full-consumption rule. Yields the raw title and reference bytes.
pub open spec fn current_frame(b: Seq<u8>) -> Result<(Seq<u8>, Genre, Seq<u8>), ShapeError> {
    match parse_text(b) {
        Err(e) => Err(e),
        Ok((title, r1)) => match parse_genre(r1) {
            Err(e) => Err(e),
            Ok((g, r2)) => match parse_text(r2) {
                Err(e) => Err(e),
                Ok((reference, r3)) => if r3.len() == 0 {
                    Ok((title, g, reference))
                } else {
                    Err(ShapeError::TrailingBytes)
                },
            },
        },
    }
}

/// A fully validated legacy-shape decode: the frame parses and the title
/// bytes are valid UTF-8.
pub open spec fn legacy_check(b: Seq<u8>) -> Result<(Seq<u8>, Genre), ShapeError> {
    match legacy_frame(b) {
        Err(e) => Err(e),
        Ok((title, g)) => if valid_utf8(title) {
            Ok((title, g))
        } else {
            Err(ShapeError::InvalidUtf8)
        },
    }
}

/// A fully validated current-shape decode: the frame parses and both text
/// fields are valid UTF-8, the title checked first.
pub open spec fn current_check(b: Seq<u8>) -> Result<(Seq<u8>, Genre, Seq<u8>), ShapeError> {
    match current_frame(b) {
        Err(e) => Err(e),
        Ok((title, g, reference)) => if !valid_utf8(title) {
            Err(ShapeError::InvalidUtf8)
        } else if !valid_utf8(reference) {
            Err(ShapeError::InvalidUtf8)
        } else {
            Ok((title, g, reference))
        },
    }
}

/// The shape a buffer was recognised as, at the level of raw field bytes.
pub enum ShapeView {
    LegacyBody { title: Seq<u8>, genre: Genre },
    CurrentBody { title: Seq<u8>, genre: Genre, reference: Seq<u8> },
}

/// Parses and validates a whole buffer as an explicit-envelope record:
/// one leading tag byte selecting the variant, followed by that variant's
/// struct encoding, under the full-consumption rule.
pub open spec fn versioned_check(b: Seq<u8>) -> Result<ShapeView, ShapeError> {
    if b.len() < 1 {
        Err(ShapeError::Truncated)
    } else if b[0] == 0 {
        match legacy_check(b.subrange(1, b.len() as int)) {
            Err(e) => Err(e),
            Ok((title, g)) => Ok(ShapeView::LegacyBody { title, genre: g }),
        }
    } else if b[0] == 1 {
        match current_check(b.subrange(1, b.len() as int)) {
            Err(e) => Err(e),
            Ok((title, g, reference)) => Ok(
                ShapeView::CurrentBody { title, genre: g, reference },
            ),
        }
    } else {
        Err(ShapeError::InvalidDiscriminant)
    }
}

} // verus!
