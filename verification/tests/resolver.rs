use movie_codec::{
    decode_current, encode_current, encode_legacy, encode_versioned, resolve, DecodeError,
    DecodedRecord, Genre, LegacyMovie, Movie, MovieV2, ShapeError,
};

fn sample_legacy() -> LegacyMovie {
    LegacyMovie { title: "Back To The Future".into(), genre: Genre::ScienceFiction }
}

fn sample_current() -> MovieV2 {
    MovieV2 {
        title: "Back To The Future".into(),
        genre: Genre::ScienceFiction,
        imdb_url: "https://www.imdb.com/title/tt0088763/".into(),
    }
}

#[test]
fn test_deserialize_movie() {
    let mut input: Vec<u8> = vec![0x12, 0x00, 0x00, 0x00];
    input.extend_from_slice("Back To The Future".as_bytes());
    input.push(0x05);
    let deserialized_movie = Movie::backwards_compatible_deserialize(&input).unwrap();
    let expected_movie = Movie::V1(LegacyMovie {
        title: "Back To The Future".into(),
        genre: Genre::ScienceFiction,
    });
    assert_eq!(deserialized_movie, expected_movie);
}

#[test]
fn resolve_prefers_current() {
    let r = sample_current();
    let bytes = encode_current(&r);
    assert_eq!(resolve(&bytes), Ok(DecodedRecord::MatchedCurrent(r)));
}

#[test]
fn resolve_falls_back_to_legacy() {
    let r = sample_legacy();
    let bytes = encode_legacy(&r);
    assert_eq!(resolve(&bytes), Ok(DecodedRecord::MatchedLegacy(r)));
}

#[test]
fn resolve_concrete_vector() {
    // The 18-byte title plus the genre byte is too short to carry the
    // current shape's trailing text field, so the current-shape attempt
    // fails with Truncated before the legacy fallback succeeds.
    let mut input: Vec<u8> = vec![0x12, 0x00, 0x00, 0x00];
    input.extend_from_slice("Back To The Future".as_bytes());
    input.push(0x05);
    assert_eq!(decode_current(&input), Err(DecodeError::Truncated));
    assert_eq!(resolve(&input), Ok(DecodedRecord::MatchedLegacy(sample_legacy())));
}

#[test]
fn resolve_surfaces_primary_cause() {
    // Too short for any shape: both attempts fail, and the resolver
    // reports the current-shape attempt's error as the primary cause.
    let garbage = vec![0xFF, 0xFF];
    assert_eq!(
        resolve(&garbage),
        Err(DecodeError::UnrecognizedFormat(ShapeError::Truncated))
    );

    // An empty title followed by a discriminant byte out of range: both
    // attempts reach the genre field and reject it.
    let bad_genre = vec![0x00, 0x00, 0x00, 0x00, 0x09];
    assert_eq!(
        resolve(&bad_genre),
        Err(DecodeError::UnrecognizedFormat(ShapeError::InvalidDiscriminant))
    );
}

#[test]
fn resolve_is_idempotent() {
    let bytes = encode_legacy(&sample_legacy());
    assert_eq!(resolve(&bytes), resolve(&bytes));
    let garbage = vec![0x07, 0x01, 0xFF];
    assert_eq!(resolve(&garbage), resolve(&garbage));
}

#[test]
fn backwards_compatible_matches_current_first() {
    let r = MovieV2 { title: "ab".into(), genre: Genre::Comedy, imdb_url: "x".into() };
    let bytes = encode_current(&r);
    assert_eq!(Movie::backwards_compatible_deserialize(&bytes), Ok(Movie::V2(r)));
}

#[test]
fn backwards_compatible_falls_back_to_legacy() {
    let r = sample_legacy();
    let bytes = encode_legacy(&r);
    assert_eq!(Movie::backwards_compatible_deserialize(&bytes), Ok(Movie::V1(r)));
}

#[test]
fn backwards_compatible_reports_primary_cause() {
    // Too short for any shape: both attempts fail, and the current-shape
    // attempt's error is the primary cause.
    let garbage = vec![0xFF, 0xFF];
    assert_eq!(
        Movie::backwards_compatible_deserialize(&garbage),
        Err(DecodeError::UnrecognizedFormat(ShapeError::Truncated))
    );

    // An empty title followed by a discriminant byte out of range.
    let bad_genre = vec![0x00, 0x00, 0x00, 0x00, 0x09];
    assert_eq!(
        Movie::backwards_compatible_deserialize(&bad_genre),
        Err(DecodeError::UnrecognizedFormat(ShapeError::InvalidDiscriminant))
    );
}

#[test]
fn enveloped_records_need_the_versioned_decoder() {
    // An enveloped buffer is not a bare encoding of either shape: its
    // leading tag byte lands in the title's length prefix, so the
    // backward-compatible reader rejects it, while the versioned
    // decoder reads it back exactly.
    let v1 = Movie::V1(sample_legacy());
    let bytes = encode_versioned(&v1);
    assert_eq!(
        Movie::backwards_compatible_deserialize(&bytes),
        Err(DecodeError::UnrecognizedFormat(ShapeError::Truncated))
    );
    assert_eq!(movie_codec::decode_versioned(&bytes), Ok(v1));
}
