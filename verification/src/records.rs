//! Record shapes, the genre enumeration, and the error kinds of the codec.
use vstd::prelude::*;

verus! {

/// A closed enumeration of movie categories.
///
/// Each category owns one stable discriminant byte, given by
/// [`genre_disc`]: discriminants are never renumbered, only appended to.
#[derive(Clone, Copy, PartialEq, Eq, Debug, Structural)]
pub enum Genre {
    Comedy,
    Drama,
    Fantasy,
    Horror,
    Romance,
    ScienceFiction,
}

/// The original record shape: a title and a genre, encoded
/// title-then-genre with no envelope tag.
#[derive(Clone, PartialEq, Eq, Debug)]
pub struct LegacyMovie {
    pub title: String,
    pub genre: Genre,
}

/// The evolved record shape: a strict superset of [`LegacyMovie`]
/// adding one trailing text field.
#[derive(Clone, PartialEq, Eq, Debug)]
pub struct MovieV2 {
    pub title: String,
    pub genre: Genre,
    pub imdb_url: String,
}

/// A tagged union over the two record shapes, used when records are
/// written with an explicit envelope discriminant: tag byte 0 selects
/// the legacy shape, tag byte 1 the current one.
#[derive(Clone, PartialEq, Eq, Debug)]
pub enum Movie {
    V1(LegacyMovie),
    V2(MovieV2),
}

/// The resolver's output: the decoded record together with the
/// provenance of which shape actually decoded.
#[derive(Clone, PartialEq, Eq, Debug)]
pub enum DecodedRecord {
    MatchedCurrent(MovieV2),
    MatchedLegacy(LegacyMovie),
}

/// How a single decode attempt against one concrete shape can fail.
#[derive(Clone, Copy, PartialEq, Eq, Debug, Structural)]
pub enum ShapeError {
    /// Fewer bytes remain than a field declares it needs.
    Truncated,
    /// An enum or union tag byte is outside the known range.
    InvalidDiscriminant,
    /// Bytes remain after all fields were consumed.
    TrailingBytes,
    /// A text field's bytes are not valid UTF-8.
    InvalidUtf8,
}

/// The error type of every decode entry point.
///
/// The first four kinds mirror [`ShapeError`]; `UnrecognizedFormat`
/// is returned by the resolver once every known shape has been tried,
/// and carries the error of the highest-priority attempt as the
/// primary cause.
#[derive(Clone, Copy, PartialEq, Eq, Debug, Structural)]
pub enum DecodeError {
    Truncated,
    InvalidDiscriminant,
    TrailingBytes,
    InvalidUtf8,
    UnrecognizedFormat(ShapeError),
}

/// The discriminant byte of a genre: its zero-based declaration index.
pub open spec fn genre_disc(g: Genre) -> u8 {
    match g {
        Genre::Comedy => 0,
        Genre::Drama => 1,
        Genre::Fantasy => 2,
        Genre::Horror => 3,
        Genre::Romance => 4,
        Genre::ScienceFiction => 5,
    }
}

/// The genre a discriminant byte selects, meaningful for bytes 0 through 5.
pub open spec fn genre_of_disc(d: u8) -> Genre {
    if d == 0 {
        Genre::Comedy
    } else if d == 1 {
        Genre::Drama
    } else if d == 2 {
        Genre::Fantasy
    } else if d == 3 {
        Genre::Horror
    } else if d == 4 {
        Genre::Romance
    } else {
        Genre::ScienceFiction
    }
}

/// Discriminants stay within the one-byte range the wire format declares,
/// and [`genre_of_disc`] inverts [`genre_disc`].
pub proof fn lemma_genre_disc(g: Genre)
    ensures
        genre_disc(g) <= 5,
        genre_of_disc(genre_disc(g)) == g,
{
}

/// Embeds a single-shape decode error into the common error type.
pub open spec fn lift_shape(e: ShapeError) -> DecodeError {
    match e {
        ShapeError::Truncated => DecodeError::Truncated,
        ShapeError::InvalidDiscriminant => DecodeError::InvalidDiscriminant,
        ShapeError::TrailingBytes => DecodeError::TrailingBytes,
        ShapeError::InvalidUtf8 => DecodeError::InvalidUtf8,
    }
}

/// Executable counterpart of [`lift_shape`].
pub fn shape_to_decode(e: ShapeError) -> (r: DecodeError)
    ensures
        r == lift_shape(e),
{
    match e {
        ShapeError::Truncated => DecodeError::Truncated,
        ShapeError::InvalidDiscriminant => DecodeError::InvalidDiscriminant,
        ShapeError::TrailingBytes => DecodeError::TrailingBytes,
        ShapeError::InvalidUtf8 => DecodeError::InvalidUtf8,
    }
}

} // verus!
