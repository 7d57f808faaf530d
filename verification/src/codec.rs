//! The executable record codec: bit-exact encoders for each shape and
//! decoders specified against the parse functions of [`crate::wire`].
use vstd::bytes::u32_from_le_bytes;
use vstd::bytes::u32_to_le_bytes;
use vstd::prelude::*;
use vstd::slice::{slice_subrange, slice_to_vec};
use vstd::utf8::{decode_utf8, encode_utf8, valid_utf8};

use crate::records::{
    DecodeError, Genre, LegacyMovie, Movie, MovieV2, ShapeError, genre_disc, genre_of_disc,
    lift_shape, shape_to_decode,
};
use crate::wire::{
    ShapeView, current_check, current_enc, current_valid, legacy_check, legacy_enc, legacy_valid,
    movie_valid, parse_genre, parse_text, text_enc, versioned_check, versioned_enc,
};

verus! {

/// Relies on `String::from_utf8`: it succeeds exactly when the bytes are
/// valid UTF-8, and the returned string's characters are the UTF-8
/// decoding of those bytes.
#[verifier::external_body]
fn bytes_to_string(v: Vec<u8>) -> (r: Option<String>)
    ensures
        r is Some <==> valid_utf8(v@),
        r matches Some(s) ==> s@ == decode_utf8(v@),
{
    String::from_utf8(v).ok()
}

/// The discriminant byte a genre encodes to.
fn genre_byte(g: Genre) -> (d: u8)
    ensures
        d == genre_disc(g),
{
    match g {
        Genre::Comedy => 0,
        Genre::Drama => 1,
        Genre::Fantasy => 2,
        Genre::Horror => 3,
        Genre::Romance => 4,
        Genre::ScienceFiction => 5,
    }
}

/// The genre a discriminant byte within the declared range selects.
fn genre_from_disc(d: u8) -> (g: Genre)
    requires
        d <= 5,
    ensures
        g == genre_of_disc(d),
{
    if d == 0 {
        Genre::Comedy
    } else if d == 1 {
        Genre::Drama
    } else if d == 2 {
        Genre::Fantasy
    } else if d == 3 {
        Genre::Horror
    } else if d == 4 {
        Genre::Romance
    } else {
        Genre::ScienceFiction
    }
}

/// Encodes one text field: the 4-byte little-endian length prefix
/// followed by the UTF-8 bytes of the string.
fn encode_text(s: &str) -> (out: Vec<u8>)
    requires
        encode_utf8(s@).len() <= u32::MAX,
    ensures
        out@ == text_enc(encode_utf8(s@)),
{
    let bytes: &[u8] = s.as_bytes();
    let mut content: Vec<u8> = slice_to_vec(bytes);
    let n: u32 = content.len() as u32;
    let mut out: Vec<u8> = u32_to_le_bytes(n);
    out.append(&mut content);
    out
}

/// Encodes a legacy record: title, then the genre discriminant byte.
pub fn encode_legacy(r: &LegacyMovie) -> (out: Vec<u8>)
    requires
        legacy_valid(*r),
    ensures
        out@ == legacy_enc(r.title@, r.genre),
{
    let mut out = encode_text(r.title.as_str());
    out.push(genre_byte(r.genre));
    proof {
        assert(out@ =~= legacy_enc(r.title@, r.genre));
    }
    out
}

/// Encodes a current record: title, genre discriminant byte, then the
/// trailing reference text field.
pub fn encode_current(r: &MovieV2) -> (out: Vec<u8>)
    requires
        current_valid(*r),
    ensures
        out@ == current_enc(r.title@, r.genre, r.imdb_url@),
{
    let mut out = encode_text(r.title.as_str());
    out.push(genre_byte(r.genre));
    let mut tail = encode_text(r.imdb_url.as_str());
    out.append(&mut tail);
    proof {
        assert(out@ =~= current_enc(r.title@, r.genre, r.imdb_url@));
    }
    out
}

/// Encodes an enveloped record: the variant's tag byte, then the
/// variant's struct encoding.
pub fn encode_versioned(m: &Movie) -> (out: Vec<u8>)
    requires
        movie_valid(*m),
    ensures
        out@ == versioned_enc(*m),
{
    match m {
        Movie::V1(r) => {
            let mut out: Vec<u8> = Vec::new();
            out.push(0);
            let mut body = encode_legacy(r);
            out.append(&mut body);
            proof {
                assert(out@ =~= versioned_enc(*m));
            }
            out
        },
        Movie::V2(r) => {
            let mut out: Vec<u8> = Vec::new();
            out.push(1);
            let mut body = encode_current(r);
            out.append(&mut body);
            proof {
                assert(out@ =~= versioned_enc(*m));
            }
            out
        },
    }
}

/// Reads one text field off the front of the buffer, returning the
/// content bytes and the unread remainder.
fn take_text<'a>(b: &'a [u8]) -> (r: Result<(Vec<u8>, &'a [u8]), ShapeError>)
    ensures
        (match r {
            Ok(p) => parse_text(b@) == Ok::<_, ShapeError>((p.0@, p.1@)),
            Err(e) => parse_text(b@) == Err::<(Seq<u8>, Seq<u8>), _>(e),
        }),
{
    if b.len() < 4 {
        return Err(ShapeError::Truncated);
    }
    let len_bytes: &[u8] = slice_subrange(b, 0, 4);
    let n: u32 = u32_from_le_bytes(len_bytes);
    let n_us: usize = n as usize;
    if b.len() - 4 < n_us {
        return Err(ShapeError::Truncated);
    }
    let content: Vec<u8> = slice_to_vec(slice_subrange(b, 4, 4 + n_us));
    let rest: &[u8] = slice_subrange(b, 4 + n_us, b.len());
    Ok((content, rest))
}

/// Reads one genre discriminant byte off the front of the buffer.
fn take_genre<'a>(b: &'a [u8]) -> (r: Result<(Genre, &'a [u8]), ShapeError>)
    ensures
        (match r {
            Ok(p) => parse_genre(b@) == Ok::<_, ShapeError>((p.0, p.1@)),
            Err(e) => parse_genre(b@) == Err::<(Genre, Seq<u8>), _>(e),
        }),
{
    if b.len() < 1 {
        return Err(ShapeError::Truncated);
    }
    let d: u8 = b[0];
    if d > 5 {
        return Err(ShapeError::InvalidDiscriminant);
    }
    let rest: &[u8] = slice_subrange(b, 1, b.len());
    Ok((genre_from_disc(d), rest))
}

/// Decodes a whole buffer as the legacy shape, reporting the error kind
/// of [`legacy_check`] on failure.
pub(crate) fn legacy_attempt(input: &[u8]) -> (r: Result<LegacyMovie, ShapeError>)
    ensures
        (match r {
            Ok(m) => legacy_check(input@) matches Ok(p) && m.title@ == decode_utf8(p.0)
                && m.genre == p.1,
            Err(e) => legacy_check(input@) == Err::<(Seq<u8>, Genre), _>(e),
        }),
{
    let (title_bytes, rest1) = match take_text(input) {
        Ok(p) => p,
        Err(e) => {
            return Err(e);
        },
    };
    let (genre, rest2) = match take_genre(rest1) {
        Ok(p) => p,
        Err(e) => {
            return Err(e);
        },
    };
    if rest2.len() != 0 {
        return Err(ShapeError::TrailingBytes);
    }
    match bytes_to_string(title_bytes) {
        Some(title) => Ok(LegacyMovie { title, genre }),
        None => Err(ShapeError::InvalidUtf8),
    }
}

/// Decodes a whole buffer as the current shape, reporting the error kind
/// of [`current_check`] on failure.
pub(crate) fn current_attempt(input: &[u8]) -> (r: Result<MovieV2, ShapeError>)
    ensures
        (match r {
            Ok(m) => current_check(input@) matches Ok(p) && m.title@ == decode_utf8(p.0)
                && m.genre == p.1 && m.imdb_url@ == decode_utf8(p.2),
            Err(e) => current_check(input@) == Err::<(Seq<u8>, Genre, Seq<u8>), _>(e),
        }),
{
    let (title_bytes, rest1) = match take_text(input) {
        Ok(p) => p,
        Err(e) => {
            return Err(e);
        },
    };
    let (genre, rest2) = match take_genre(rest1) {
        Ok(p) => p,
        Err(e) => {
            return Err(e);
        },
    };
    let (reference_bytes, rest3) = match take_text(rest2) {
        Ok(p) => p,
        Err(e) => {
            return Err(e);
        },
    };
    if rest3.len() != 0 {
        return Err(ShapeError::TrailingBytes);
    }
    let title = match bytes_to_string(title_bytes) {
        Some(title) => title,
        None => {
            return Err(ShapeError::InvalidUtf8);
        },
    };
    let imdb_url = match bytes_to_string(reference_bytes) {
        Some(imdb_url) => imdb_url,
        None => {
            return Err(ShapeError::InvalidUtf8);
        },
    };
    Ok(MovieV2 { title, genre, imdb_url })
}

/// Whether a decoded enveloped record carries the field values of a
/// recognised shape.
pub open spec fn movie_matches_view(m: Movie, v: ShapeView) -> bool {
    match (m, v) {
        (Movie::V1(r), ShapeView::LegacyBody { title, genre }) => r.title@ == decode_utf8(title)
            && r.genre == genre,
        (Movie::V2(r), ShapeView::CurrentBody { title, genre, reference }) => r.title@
            == decode_utf8(title) && r.genre == genre && r.imdb_url@ == decode_utf8(reference),
        _ => false,
    }
}

/// Decodes a whole buffer as an explicit-envelope record, reporting the
/// error kind of [`versioned_check`] on failure.
pub(crate) fn versioned_attempt(input: &[u8]) -> (r: Result<Movie, ShapeError>)
    ensures
        (match r {
            Ok(m) => versioned_check(input@) matches Ok(v) && movie_matches_view(m, v),
            Err(e) => versioned_check(input@) == Err::<ShapeView, _>(e),
        }),
{
    if input.len() < 1 {
        return Err(ShapeError::Truncated);
    }
    let tag: u8 = input[0];
    let body: &[u8] = slice_subrange(input, 1, input.len());
    if tag == 0 {
        match legacy_attempt(body) {
            Ok(m) => Ok(Movie::V1(m)),
            Err(e) => Err(e),
        }
    } else if tag == 1 {
        match current_attempt(body) {
            Ok(m) => Ok(Movie::V2(m)),
            Err(e) => Err(e),
        }
    } else {
        Err(ShapeError::InvalidDiscriminant)
    }
}

/// Decodes bytes as a legacy record, consuming the whole buffer.
pub fn decode_legacy(input: &[u8]) -> (r: Result<LegacyMovie, DecodeError>)
    ensures
        (match r {
            Ok(m) => legacy_check(input@) matches Ok(p) && m.title@ == decode_utf8(p.0)
                && m.genre == p.1,
            Err(e) => legacy_check(input@) matches Err(s) && e == lift_shape(s),
        }),
{
    match legacy_attempt(input) {
        Ok(m) => Ok(m),
        Err(e) => Err(shape_to_decode(e)),
    }
}

/// Decodes bytes as a current record, consuming the whole buffer.
pub fn decode_current(input: &[u8]) -> (r: Result<MovieV2, DecodeError>)
    ensures
        (match r {
            Ok(m) => current_check(input@) matches Ok(p) && m.title@ == decode_utf8(p.0)
                && m.genre == p.1 && m.imdb_url@ == decode_utf8(p.2),
            Err(e) => current_check(input@) matches Err(s) && e == lift_shape(s),
        }),
{
    match current_attempt(input) {
        Ok(m) => Ok(m),
        Err(e) => Err(shape_to_decode(e)),
    }
}

/// Decodes bytes as an explicit-envelope record, consuming the whole
/// buffer.
pub fn decode_versioned(input: &[u8]) -> (r: Result<Movie, DecodeError>)
    ensures
        (match r {
            Ok(m) => versioned_check(input@) matches Ok(v) && movie_matches_view(m, v),
            Err(e) => versioned_check(input@) matches Err(s) && e == lift_shape(s),
        }),
{
    match versioned_attempt(input) {
        Ok(m) => Ok(m),
        Err(e) => Err(shape_to_decode(e)),
    }
}

} // verus!
