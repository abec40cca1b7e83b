use iot_sound::codec::{decode, encode, DecodeError, LoudnessData, Timestamp};

fn level_and_secs(payload: &[u8]) -> (String, u64) {
    match decode(payload) {
        Ok(d) => (d.db_level(), d.timestamp().secs),
        Err(e) => panic!("payload did not decode: {:?}", e),
    }
}

#[test]
fn decodes_level_and_epoch_seconds() {
    let (level, secs) = level_and_secs(b"42.7,1700000000");
    assert_eq!(level, "42.7");
    assert_eq!(secs, 1700000000);
    match decode(b"42.7,1700000000") {
        Ok(d) => assert_eq!(d.timestamp(), Timestamp { secs: 1700000000, nanos: 0 }),
        Err(e) => panic!("{:?}", e),
    }
}

#[test]
fn one_field_is_malformed() {
    assert_eq!(decode(b"abc").unwrap_err(), DecodeError::Malformed);
}

#[test]
fn three_fields_are_malformed() {
    assert_eq!(decode(b"1.0,2.0,3.0").unwrap_err(), DecodeError::Malformed);
    assert_eq!(decode(b"1.0,2,3").unwrap_err(), DecodeError::Malformed);
}

#[test]
fn invalid_utf8_is_an_encoding_error() {
    assert_eq!(decode(&[0xff, 0xfe, b',', b'1']).unwrap_err(), DecodeError::Encoding);
}

#[test]
fn non_numeric_fields_are_malformed() {
    assert_eq!(decode(b"loud,1700000000").unwrap_err(), DecodeError::Malformed);
    assert_eq!(decode(b"55.0,-1").unwrap_err(), DecodeError::Malformed);
    assert_eq!(decode(b"55.0,2.5").unwrap_err(), DecodeError::Malformed);
    assert_eq!(decode(b"55.0,").unwrap_err(), DecodeError::Malformed);
    assert_eq!(decode(b",5").unwrap_err(), DecodeError::Malformed);
    assert_eq!(decode(b".,5").unwrap_err(), DecodeError::Malformed);
    assert_eq!(decode(b"1.2.3,5").unwrap_err(), DecodeError::Malformed);
    assert_eq!(decode(b"1e,5").unwrap_err(), DecodeError::Malformed);
    assert_eq!(decode(b"1e5e5,5").unwrap_err(), DecodeError::Malformed);
    assert_eq!(decode(b"infinit,5").unwrap_err(), DecodeError::Malformed);
    assert_eq!(decode(b"").unwrap_err(), DecodeError::Malformed);
}

#[test]
fn float_forms_accepted() {
    for level in ["55", "-3.5", "+0.25", "1.", ".5", "1e5", "2.5E-3", "inf", "-Infinity", "NaN"] {
        let payload = format!("{},7", level);
        let (got, secs) = level_and_secs(payload.as_bytes());
        assert_eq!(got, level);
        assert_eq!(secs, 7);
    }
}

#[test]
fn epoch_seconds_bounds() {
    assert_eq!(level_and_secs(b"1.0,18446744073709551615").1, u64::MAX);
    assert_eq!(level_and_secs(b"1.0,+12").1, 12);
    assert_eq!(level_and_secs(b"1.0,0").1, 0);
    assert_eq!(decode(b"1.0,18446744073709551616").unwrap_err(), DecodeError::Malformed);
    assert_eq!(decode(b"1.0,+").unwrap_err(), DecodeError::Malformed);
}

#[test]
fn to_csv_writes_level_and_seconds() {
    let d = LoudnessData::new("42.7".to_string(), Timestamp::from_secs(1700000000));
    assert_eq!(d.to_csv(), "42.7,1700000000");
    let zero = LoudnessData::new("0".to_string(), Timestamp::from_secs(0));
    assert_eq!(zero.to_csv(), "0,0");
    let max = LoudnessData::new("1".to_string(), Timestamp::from_secs(u64::MAX));
    assert_eq!(max.to_csv(), "1,18446744073709551615");
}

#[test]
fn parse_csv_reads_text() {
    let d = LoudnessData::parse_csv("55.0,1700000000").unwrap();
    assert_eq!(d.db_level(), "55.0");
    assert_eq!(d.timestamp().secs, 1700000000);
    assert!(LoudnessData::parse_csv("55.0").is_err());
}

#[test]
fn round_trip_through_bytes() {
    for (level, secs) in [("55.0", 1700000000u64), ("-1e3", 0), ("nan", u64::MAX), (".5", 9)] {
        let d = LoudnessData::new(level.to_string(), Timestamp::from_secs(secs));
        let bytes = encode(&d);
        assert_eq!(bytes, format!("{},{}", level, secs).into_bytes());
        let (got_level, got_secs) = level_and_secs(&bytes);
        assert_eq!(got_level, level);
        assert_eq!(got_secs, secs);
    }
}
