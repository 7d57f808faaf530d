use movie_codec::{
    decode_current, decode_legacy, decode_versioned, encode_current, encode_legacy,
    encode_versioned, DecodeError, Genre, LegacyMovie, Movie, MovieV2,
};

fn sample_legacy() -> LegacyMovie {
    LegacyMovie { title: "Back To The Future".into(), genre: Genre::ScienceFiction }
}

fn sample_current() -> MovieV2 {
    MovieV2 {
        title: "Back To The Future".into(),
        genre: Genre::ScienceFiction,
        imdb_url: "https://www.imdb.com/title/tt0088763/".into(),
    }
}

fn legacy_vector() -> Vec<u8> {
    let mut input: Vec<u8> = vec![0x12, 0x00, 0x00, 0x00];
    input.extend_from_slice("Back To The Future".as_bytes());
    input.push(0x05);
    input
}

#[test]
fn encode_legacy_exact_bytes() {
    assert_eq!(encode_legacy(&sample_legacy()), legacy_vector());
}

#[test]
fn encode_current_exact_bytes() {
    let url = "https://www.imdb.com/title/tt0088763/";
    let mut expected = legacy_vector();
    expected.extend_from_slice(&[0x25, 0x00, 0x00, 0x00]);
    expected.extend_from_slice(url.as_bytes());
    assert_eq!(encode_current(&sample_current()), expected);
}

#[test]
fn encode_versioned_prepends_tag() {
    let mut expected_v1 = vec![0x00];
    expected_v1.extend_from_slice(&encode_legacy(&sample_legacy()));
    assert_eq!(encode_versioned(&Movie::V1(sample_legacy())), expected_v1);

    let mut expected_v2 = vec![0x01];
    expected_v2.extend_from_slice(&encode_current(&sample_current()));
    assert_eq!(encode_versioned(&Movie::V2(sample_current())), expected_v2);
}

#[test]
fn round_trip_legacy() {
    let r = sample_legacy();
    assert_eq!(decode_legacy(&encode_legacy(&r)), Ok(r));
}

#[test]
fn round_trip_current() {
    let r = sample_current();
    assert_eq!(decode_current(&encode_current(&r)), Ok(r));
}

#[test]
fn round_trip_versioned() {
    let v1 = Movie::V1(sample_legacy());
    assert_eq!(decode_versioned(&encode_versioned(&v1)), Ok(v1));
    let v2 = Movie::V2(sample_current());
    assert_eq!(decode_versioned(&encode_versioned(&v2)), Ok(v2));
}

#[test]
fn round_trip_empty_text_fields() {
    let r = MovieV2 { title: "".into(), genre: Genre::Comedy, imdb_url: "".into() };
    let bytes = encode_current(&r);
    assert_eq!(bytes, vec![0, 0, 0, 0, 0, 0, 0, 0, 0]);
    assert_eq!(decode_current(&bytes), Ok(r));
}

#[test]
fn round_trip_multibyte_title() {
    // Two characters need more than one UTF-8 byte each: the length
    // prefix counts bytes, not characters.
    let r = LegacyMovie { title: "naïve café".into(), genre: Genre::Drama };
    let bytes = encode_legacy(&r);
    assert_eq!(bytes[0], 12);
    assert_eq!(bytes.len(), 4 + 12 + 1);
    assert_eq!(decode_legacy(&bytes), Ok(r));
}

#[test]
fn every_genre_round_trips() {
    let genres = vec![
        (Genre::Comedy, 0x00),
        (Genre::Drama, 0x01),
        (Genre::Fantasy, 0x02),
        (Genre::Horror, 0x03),
        (Genre::Romance, 0x04),
        (Genre::ScienceFiction, 0x05),
    ];
    for (genre, disc) in genres {
        let r = LegacyMovie { title: "x".into(), genre };
        let bytes = encode_legacy(&r);
        assert_eq!(*bytes.last().unwrap(), disc);
        assert_eq!(decode_legacy(&bytes), Ok(r));
    }
}

#[test]
fn science_fiction_encodes_as_five() {
    let bytes = encode_legacy(&sample_legacy());
    assert_eq!(*bytes.last().unwrap(), 0x05);
}

#[test]
fn genre_byte_six_is_invalid() {
    let mut bytes = encode_legacy(&sample_legacy());
    let last = bytes.len() - 1;
    bytes[last] = 0x06;
    assert_eq!(decode_legacy(&bytes), Err(DecodeError::InvalidDiscriminant));
    let mut current = encode_current(&sample_current());
    current[22] = 0x06;
    assert_eq!(decode_current(&current), Err(DecodeError::InvalidDiscriminant));
}

#[test]
fn envelope_tag_out_of_range_is_invalid() {
    let mut bytes = encode_versioned(&Movie::V1(sample_legacy()));
    bytes[0] = 0x02;
    assert_eq!(decode_versioned(&bytes), Err(DecodeError::InvalidDiscriminant));
}

#[test]
fn truncation_yields_truncated() {
    let mut legacy = encode_legacy(&sample_legacy());
    legacy.pop();
    assert_eq!(decode_legacy(&legacy), Err(DecodeError::Truncated));

    let mut current = encode_current(&sample_current());
    current.pop();
    assert_eq!(decode_current(&current), Err(DecodeError::Truncated));

    let mut versioned = encode_versioned(&Movie::V2(sample_current()));
    versioned.pop();
    assert_eq!(decode_versioned(&versioned), Err(DecodeError::Truncated));
}

#[test]
fn empty_buffer_is_truncated() {
    let empty: Vec<u8> = vec![];
    assert_eq!(decode_legacy(&empty), Err(DecodeError::Truncated));
    assert_eq!(decode_current(&empty), Err(DecodeError::Truncated));
    assert_eq!(decode_versioned(&empty), Err(DecodeError::Truncated));
}

#[test]
fn extra_byte_yields_trailing_bytes() {
    let mut legacy = encode_legacy(&sample_legacy());
    legacy.push(0x00);
    assert_eq!(decode_legacy(&legacy), Err(DecodeError::TrailingBytes));

    let mut current = encode_current(&sample_current());
    current.push(0x00);
    assert_eq!(decode_current(&current), Err(DecodeError::TrailingBytes));

    let mut versioned = encode_versioned(&Movie::V1(sample_legacy()));
    versioned.push(0x00);
    assert_eq!(decode_versioned(&versioned), Err(DecodeError::TrailingBytes));
}

#[test]
fn invalid_utf8_is_rejected() {
    // One text byte 0xFF, which no UTF-8 sequence contains.
    let bytes = vec![0x01, 0x00, 0x00, 0x00, 0xFF, 0x02];
    assert_eq!(decode_legacy(&bytes), Err(DecodeError::InvalidUtf8));
}
