//! The compatibility resolver: reads bytes of unknown shape by trying
//! the known shapes in strict priority order, newest first, under the
//! full-consumption rule, and tags the result with the shape that
//! actually decoded.
use vstd::prelude::*;
use vstd::utf8::decode_utf8;

use crate::codec::{current_attempt, legacy_attempt, movie_matches_view};
use crate::records::{DecodeError, DecodedRecord, Movie};
use crate::wire::{ShapeView, current_check, legacy_check};

verus! {

/// The outcome the resolver owes for a given buffer: the current shape
/// if it fully decodes, else the legacy shape if it fully decodes, else
/// `UnrecognizedFormat` carrying the current-shape attempt's error as
/// the primary cause.
pub open spec fn resolve_spec(b: Seq<u8>) -> Result<ShapeView, DecodeError> {
    match current_check(b) {
        Ok((title, genre, reference)) => Ok(ShapeView::CurrentBody { title, genre, reference }),
        Err(primary) => match legacy_check(b) {
            Ok((title, genre)) => Ok(ShapeView::LegacyBody { title, genre }),
            Err(_) => Err(DecodeError::UnrecognizedFormat(primary)),
        },
    }
}

/// Whether a resolver result is exactly what [`resolve_spec`] owes for
/// the buffer, with the decoded text fields read as characters.
pub open spec fn resolve_post(b: Seq<u8>, r: Result<DecodedRecord, DecodeError>) -> bool {
    match resolve_spec(b) {
        Ok(v) => match v {
            ShapeView::CurrentBody { title, genre, reference } => r matches Ok(d) && d matches
                DecodedRecord::MatchedCurrent(m) && m.title@ == decode_utf8(title) && m.genre
                == genre && m.imdb_url@ == decode_utf8(reference),
            ShapeView::LegacyBody { title, genre } => r matches Ok(d) && d matches
                DecodedRecord::MatchedLegacy(m) && m.title@ == decode_utf8(title) && m.genre
                == genre,
        },
        Err(e) => r == Err::<DecodedRecord, _>(e),
    }
}

/// Resolves bytes of unknown shape into a tagged record.
///
/// The current shape is tried first: a well-formed current buffer could
/// only satisfy the shorter legacy shape by silent truncation, which the
/// full-consumption rule rejects, so trying newest-first never downgrades
/// new data. On failure of both attempts, the error of the current-shape
/// attempt is surfaced as the primary cause.
pub fn resolve(input: &[u8]) -> (r: Result<DecodedRecord, DecodeError>)
    ensures
        resolve_post(input@, r),
{
    match current_attempt(input) {
        Ok(m) => Ok(DecodedRecord::MatchedCurrent(m)),
        Err(primary) => match legacy_attempt(input) {
            Ok(m) => Ok(DecodedRecord::MatchedLegacy(m)),
            Err(_) => Err(DecodeError::UnrecognizedFormat(primary)),
        },
    }
}

/// Whether a backward-compatible deserialization result carries, as a
/// `Movie`, exactly the record [`resolve_spec`] owes for the buffer:
/// the recognised shape's variant with its decoded field values, or the
/// owed error.
pub open spec fn fallback_post(b: Seq<u8>, r: Result<Movie, DecodeError>) -> bool {
    match resolve_spec(b) {
        Ok(v) => r matches Ok(m) && movie_matches_view(m, v),
        Err(e) => r == Err::<Movie, _>(e),
    }
}

impl Movie {
    /// Reads bytes of unknown shape by the same priority order as
    /// [`resolve`], tagging the result as the matching variant: the
    /// current shape is tried first, then the legacy fallback, and when
    /// both attempts fail the current-shape attempt's error is surfaced
    /// as the primary cause of `UnrecognizedFormat`. Records written
    /// with the explicit envelope tag are read by
    /// [`crate::codec::decode_versioned`] instead.
    pub fn backwards_compatible_deserialize(input: &[u8]) -> (r: Result<Movie, DecodeError>)
        ensures
            fallback_post(input@, r),
    {
        match current_attempt(input) {
            Ok(m) => Ok(Movie::V2(m)),
            Err(primary) => match legacy_attempt(input) {
                Ok(m) => Ok(Movie::V1(m)),
                Err(_) => Err(DecodeError::UnrecognizedFormat(primary)),
            },
        }
    }
}

} // verus!
