//! The laws of the codec, proved once and for all inputs: encodings
//! parse back to what was encoded, the resolver prefers the current
//! shape and falls back to the legacy shape, mutilated encodings are
//! rejected with the owed error kind, and resolution is deterministic.
use vstd::bytes::{lemma_auto_spec_u32_to_from_le_bytes, spec_u32_from_le_bytes,
    spec_u32_to_le_bytes};
use vstd::prelude::*;
use vstd::utf8::{decode_utf8, encode_utf8};

use crate::codec::movie_matches_view;
use crate::records::{
    DecodeError, DecodedRecord, Genre, LegacyMovie, Movie, MovieV2, ShapeError, genre_disc,
    lemma_genre_disc,
};
use crate::resolver::{resolve_post, resolve_spec};
use crate::wire::{
    ShapeView, current_check, current_enc, current_enc_bytes, current_frame, current_valid,
    legacy_check, legacy_enc, legacy_enc_bytes, legacy_frame, legacy_valid, movie_valid,
    parse_genre, parse_text, text_enc, versioned_check, versioned_enc,
};

verus! {

/// A text field parses back to exactly the content it encoded, leaving
/// exactly the bytes that followed it.
pub proof fn lemma_parse_text_enc(content: Seq<u8>, rest: Seq<u8>)
    requires
        content.len() <= u32::MAX,
    ensures
        parse_text(text_enc(content) + rest) == Ok::<_, ShapeError>((content, rest)),
{
    lemma_auto_spec_u32_to_from_le_bytes();
    let b = text_enc(content) + rest;
    let prefix = spec_u32_to_le_bytes(content.len() as u32);
    assert(b.subrange(0, 4) =~= prefix);
    let n = spec_u32_from_le_bytes(b.subrange(0, 4)) as int;
    assert(n == content.len());
    assert(b.subrange(4, 4 + n) =~= content);
    assert(b.subrange(4 + n, b.len() as int) =~= rest);
}

/// A genre field parses back to exactly the genre it encoded.
pub proof fn lemma_parse_genre_enc(g: Genre, rest: Seq<u8>)
    ensures
        parse_genre(seq![genre_disc(g)] + rest) == Ok::<_, ShapeError>((g, rest)),
{
    let b = seq![genre_disc(g)] + rest;
    lemma_genre_disc(g);
    assert(b.subrange(1, b.len() as int) =~= rest);
}

/// A legacy-shape encoding parses back to exactly the fields it encoded.
pub proof fn lemma_legacy_frame_enc(title: Seq<u8>, g: Genre)
    requires
        title.len() <= u32::MAX,
    ensures
        legacy_frame(legacy_enc_bytes(title, g)) == Ok::<_, ShapeError>((title, g)),
{
    lemma_parse_text_enc(title, seq![genre_disc(g)]);
    lemma_parse_genre_enc(g, Seq::empty());
    assert(seq![genre_disc(g)] + Seq::<u8>::empty() =~= seq![genre_disc(g)]);
}

/// A current-shape encoding parses back to exactly the fields it encoded.
pub proof fn lemma_current_frame_enc(title: Seq<u8>, g: Genre, reference: Seq<u8>)
    requires
        title.len() <= u32::MAX,
        reference.len() <= u32::MAX,
    ensures
        current_frame(current_enc_bytes(title, g, reference)) == Ok::<_, ShapeError>(
            (title, g, reference),
        ),
{
    let tail = seq![genre_disc(g)] + text_enc(reference);
    assert(current_enc_bytes(title, g, reference) =~= text_enc(title) + tail);
    lemma_parse_text_enc(title, tail);
    lemma_parse_genre_enc(g, text_enc(reference));
    lemma_parse_text_enc(reference, Seq::empty());
    assert(text_enc(reference) + Seq::<u8>::empty() =~= text_enc(reference));
}

/// A legacy-shape encoding can never satisfy the current shape: the
/// trailing text field's length prefix is missing, so the attempt ends
/// in `Truncated` — never in silent acceptance.
pub proof fn lemma_current_frame_of_legacy(title: Seq<u8>, g: Genre)
    requires
        title.len() <= u32::MAX,
    ensures
        current_frame(legacy_enc_bytes(title, g)) == Err::<(Seq<u8>, Genre, Seq<u8>), _>(
            ShapeError::Truncated,
        ),
{
    lemma_parse_text_enc(title, seq![genre_disc(g)]);
    lemma_parse_genre_enc(g, Seq::empty());
    assert(seq![genre_disc(g)] + Seq::<u8>::empty() =~= seq![genre_disc(g)]);
}

/// Round trip for the legacy shape: the encoding of any valid legacy
/// record decodes, and the decoded title characters and genre are
/// exactly the record's own.
pub proof fn lemma_legacy_round_trip(r: LegacyMovie)
    requires
        legacy_valid(r),
    ensures
        legacy_check(legacy_enc(r.title@, r.genre)) matches Ok(p) && decode_utf8(p.0) == r.title@
            && p.1 == r.genre,
{
    broadcast use vstd::utf8::encode_utf8_valid_utf8, vstd::utf8::encode_utf8_decode_utf8;

    lemma_legacy_frame_enc(encode_utf8(r.title@), r.genre);
}

/// Round trip for the current shape: the encoding of any valid current
/// record decodes, and the decoded field values are exactly the
/// record's own.
pub proof fn lemma_current_round_trip(r: MovieV2)
    requires
        current_valid(r),
    ensures
        current_check(current_enc(r.title@, r.genre, r.imdb_url@)) matches Ok(p) && decode_utf8(
            p.0,
        ) == r.title@ && p.1 == r.genre && decode_utf8(p.2) == r.imdb_url@,
{
    broadcast use vstd::utf8::encode_utf8_valid_utf8, vstd::utf8::encode_utf8_decode_utf8;

    lemma_current_frame_enc(encode_utf8(r.title@), r.genre, encode_utf8(r.imdb_url@));
}

/// Round trip for the explicit envelope: the enveloped encoding of any
/// valid record decodes to the same variant with the same field values.
pub proof fn lemma_versioned_round_trip(m: Movie)
    requires
        movie_valid(m),
    ensures
        versioned_check(versioned_enc(m)) matches Ok(v) && movie_matches_view(m, v),
{
    let b = versioned_enc(m);
    match m {
        Movie::V1(r) => {
            assert(b.subrange(1, b.len() as int) =~= legacy_enc(r.title@, r.genre));
            lemma_legacy_round_trip(r);
        },
        Movie::V2(r) => {
            assert(b.subrange(1, b.len() as int) =~= current_enc(r.title@, r.genre, r.imdb_url@));
            lemma_current_round_trip(r);
        },
    }
}

/// Resolver priority: the encoding of any valid current record resolves
/// to `MatchedCurrent` of exactly that record's field values.
pub proof fn lemma_resolve_priority(r: MovieV2)
    requires
        current_valid(r),
    ensures
        resolve_spec(current_enc(r.title@, r.genre, r.imdb_url@)) matches Ok(v) && v matches
            ShapeView::CurrentBody { title, genre, reference } && decode_utf8(title) == r.title@
            && genre == r.genre && decode_utf8(reference) == r.imdb_url@,
{
    lemma_current_round_trip(r);
}

/// Resolver fallback: the encoding of any valid legacy record fails the
/// current-shape attempt with `Truncated` and resolves to
/// `MatchedLegacy` of exactly that record's field values.
pub proof fn lemma_resolve_fallback(r: LegacyMovie)
    requires
        legacy_valid(r),
    ensures
        current_check(legacy_enc(r.title@, r.genre)) == Err::<(Seq<u8>, Genre, Seq<u8>), _>(
            ShapeError::Truncated,
        ),
        resolve_spec(legacy_enc(r.title@, r.genre)) matches Ok(v) && v matches
            ShapeView::LegacyBody { title, genre } && decode_utf8(title) == r.title@ && genre
            == r.genre,
{
    lemma_current_frame_of_legacy(encode_utf8(r.title@), r.genre);
    lemma_legacy_round_trip(r);
}

/// Discriminant stability: the science-fiction genre always encodes as
/// byte 5, and the first byte past the declared range never decodes as
/// a genre.
pub proof fn lemma_discriminant_stability(b: Seq<u8>)
    ensures
        genre_disc(Genre::ScienceFiction) == 5,
        b.len() >= 1 && b[0] == 6 ==> parse_genre(b) == Err::<(Genre, Seq<u8>), _>(
            ShapeError::InvalidDiscriminant,
        ),
{
}

/// Truncation of the legacy shape: removing the last byte of any valid
/// legacy encoding yields `Truncated`.
pub proof fn lemma_truncation_legacy(title: Seq<u8>, g: Genre)
    requires
        title.len() <= u32::MAX,
    ensures
        legacy_check(legacy_enc_bytes(title, g).drop_last()) == Err::<(Seq<u8>, Genre), _>(
            ShapeError::Truncated,
        ),
{
    lemma_auto_spec_u32_to_from_le_bytes();
    let b = legacy_enc_bytes(title, g).drop_last();
    assert(b =~= text_enc(title) + Seq::<u8>::empty());
    lemma_parse_text_enc(title, Seq::empty());
}

/// Truncation of the current shape: removing the last byte of any valid
/// current encoding yields `Truncated`.
pub proof fn lemma_truncation_current(title: Seq<u8>, g: Genre, reference: Seq<u8>)
    requires
        title.len() <= u32::MAX,
        reference.len() <= u32::MAX,
    ensures
        current_check(current_enc_bytes(title, g, reference).drop_last()) == Err::<
            (Seq<u8>, Genre, Seq<u8>),
            _,
        >(ShapeError::Truncated),
{
    lemma_auto_spec_u32_to_from_le_bytes();
    let b = current_enc_bytes(title, g, reference).drop_last();
    let shorted = text_enc(reference).drop_last();
    assert(b =~= text_enc(title) + (seq![genre_disc(g)] + shorted));
    lemma_parse_text_enc(title, seq![genre_disc(g)] + shorted);
    lemma_parse_genre_enc(g, shorted);
    if reference.len() == 0 {
        assert(shorted.len() == 3);
    } else {
        assert(shorted.subrange(0, 4) =~= spec_u32_to_le_bytes(reference.len() as u32));
        assert(spec_u32_from_le_bytes(shorted.subrange(0, 4)) == reference.len());
        assert(shorted.len() < 4 + reference.len());
    }
}

/// Truncation of the explicit envelope: removing the last byte of any
/// valid enveloped encoding yields `Truncated`.
pub proof fn lemma_truncation_versioned(m: Movie)
    requires
        movie_valid(m),
    ensures
        versioned_check(versioned_enc(m).drop_last()) == Err::<ShapeView, _>(
            ShapeError::Truncated,
        ),
{
    lemma_auto_spec_u32_to_from_le_bytes();
    let b = versioned_enc(m).drop_last();
    match m {
        Movie::V1(r) => {
            let body = legacy_enc(r.title@, r.genre);
            assert(b.len() >= 1 && b[0] == 0);
            assert(b.subrange(1, b.len() as int) =~= body.drop_last());
            lemma_truncation_legacy(encode_utf8(r.title@), r.genre);
        },
        Movie::V2(r) => {
            let body = current_enc(r.title@, r.genre, r.imdb_url@);
            assert(b.len() >= 1 && b[0] == 1);
            assert(b.subrange(1, b.len() as int) =~= body.drop_last());
            lemma_truncation_current(
                encode_utf8(r.title@),
                r.genre,
                encode_utf8(r.imdb_url@),
            );
        },
    }
}

/// Extra-byte rejection for the legacy shape: appending one byte to any
/// valid legacy encoding yields `TrailingBytes`.
pub proof fn lemma_trailing_byte_legacy(title: Seq<u8>, g: Genre, extra: u8)
    requires
        title.len() <= u32::MAX,
    ensures
        legacy_check(legacy_enc_bytes(title, g) + seq![extra]) == Err::<(Seq<u8>, Genre), _>(
            ShapeError::TrailingBytes,
        ),
{
    let b = legacy_enc_bytes(title, g) + seq![extra];
    assert(b =~= text_enc(title) + (seq![genre_disc(g)] + seq![extra]));
    lemma_parse_text_enc(title, seq![genre_disc(g)] + seq![extra]);
    lemma_parse_genre_enc(g, seq![extra]);
}

/// Extra-byte rejection for the current shape: appending one byte to any
/// valid current encoding yields `TrailingBytes`.
pub proof fn lemma_trailing_byte_current(title: Seq<u8>, g: Genre, reference: Seq<u8>, extra: u8)
    requires
        title.len() <= u32::MAX,
        reference.len() <= u32::MAX,
    ensures
        current_check(current_enc_bytes(title, g, reference) + seq![extra]) == Err::<
            (Seq<u8>, Genre, Seq<u8>),
            _,
        >(ShapeError::TrailingBytes),
{
    let b = current_enc_bytes(title, g, reference) + seq![extra];
    let tail = seq![genre_disc(g)] + (text_enc(reference) + seq![extra]);
    assert(b =~= text_enc(title) + tail);
    lemma_parse_text_enc(title, tail);
    lemma_parse_genre_enc(g, text_enc(reference) + seq![extra]);
    lemma_parse_text_enc(reference, seq![extra]);
}

/// Extra-byte rejection for the explicit envelope: appending one byte to
/// any valid enveloped encoding yields `TrailingBytes`.
pub proof fn lemma_trailing_byte_versioned(m: Movie, extra: u8)
    requires
        movie_valid(m),
    ensures
        versioned_check(versioned_enc(m) + seq![extra]) == Err::<ShapeView, _>(
            ShapeError::TrailingBytes,
        ),
{
    let b = versioned_enc(m) + seq![extra];
    match m {
        Movie::V1(r) => {
            assert(b.len() >= 1 && b[0] == 0);
            assert(b.subrange(1, b.len() as int) =~= legacy_enc_bytes(
                encode_utf8(r.title@),
                r.genre,
            ) + seq![extra]);
            lemma_trailing_byte_legacy(encode_utf8(r.title@), r.genre, extra);
        },
        Movie::V2(r) => {
            assert(b.len() >= 1 && b[0] == 1);
            assert(b.subrange(1, b.len() as int) =~= current_enc_bytes(
                encode_utf8(r.title@),
                r.genre,
                encode_utf8(r.imdb_url@),
            ) + seq![extra]);
            lemma_trailing_byte_current(
                encode_utf8(r.title@),
                r.genre,
                encode_utf8(r.imdb_url@),
                extra,
            );
        },
    }
}

/// Two resolver outputs carry the same decoded values.
pub open spec fn decoded_equiv(a: DecodedRecord, b: DecodedRecord) -> bool {
    match (a, b) {
        (DecodedRecord::MatchedCurrent(x), DecodedRecord::MatchedCurrent(y)) => x.title@
            == y.title@ && x.genre == y.genre && x.imdb_url@ == y.imdb_url@,
        (DecodedRecord::MatchedLegacy(x), DecodedRecord::MatchedLegacy(y)) => x.title@ == y.title@
            && x.genre == y.genre,
        _ => false,
    }
}

/// Two resolver results agree: both succeed with the same decoded
/// values, or both fail with the same error.
pub open spec fn resolution_equiv(
    r1: Result<DecodedRecord, DecodeError>,
    r2: Result<DecodedRecord, DecodeError>,
) -> bool {
    match (r1, r2) {
        (Ok(d1), Ok(d2)) => decoded_equiv(d1, d2),
        (Err(e1), Err(e2)) => e1 == e2,
        _ => false,
    }
}

/// Idempotent resolution: resolution is a pure function of the input
/// bytes, so any two results the resolver's contract admits for the
/// same buffer agree.
pub proof fn lemma_resolve_deterministic(
    b: Seq<u8>,
    r1: Result<DecodedRecord, DecodeError>,
    r2: Result<DecodedRecord, DecodeError>,
)
    requires
        resolve_post(b, r1),
        resolve_post(b, r2),
    ensures
        resolution_equiv(r1, r2),
{
}

} // verus!
