use midi_parser::{be_u7, parse_var_length, parse_var_length_bytes, ErrorKind, Needed, ParseError};

/// Encodes `v` as a variable-length quantity, most significant group first.
fn encode_var_length(mut v: u32) -> Vec<u8> {
    let mut out = vec![(v & 0x7F) as u8];
    v >>= 7;
    while v > 0 {
        out.insert(0, 0x80 | (v & 0x7F) as u8);
        v >>= 7;
    }
    out
}

#[test]
fn test_var_length() {
    let length = [0x7F];
    assert_eq!(parse_var_length(&length[..]), Ok((&b""[..], 0x7F)));
    let length = [0x81, 0x7F];
    assert_eq!(parse_var_length(&length[..]), Ok((&b""[..], 0xFF)));
    let length = [0x82, 0x80, 0x00];
    assert_eq!(parse_var_length(&length[..]), Ok((&b""[..], 0x8000)));
    let length = [0x82, 0x80, 0x80, 0x80];
    assert_eq!(
        parse_var_length(&length[..]),
        Err(ParseError::Malformed { kind: ErrorKind::TooLarge, remaining: 4 })
    );
}

#[test]
fn test_data_bytes() {
    let data = [0x04, b'c', b'h', b'a', b'r', b's'];
    assert_eq!(parse_var_length_bytes(&data[..]), Ok((&b"s"[..], &b"char"[..])));
}

#[test]
fn var_length_round_trips_at_group_boundaries() {
    let values = [
        0u32, 1, 0x7F, 0x80, 0x2000, 0x3FFF, 0x4000, 0x10_0000, 0x1F_FFFF, 0x20_0000, 0x800_0000,
        0x0FFF_FFFF,
    ];
    for v in values {
        let mut bytes = encode_var_length(v);
        assert!(bytes.len() <= 4);
        bytes.push(0xAB);
        assert_eq!(parse_var_length(&bytes[..]), Ok((&[0xABu8][..], v)), "value {:#x}", v);
    }
}

#[test]
fn var_length_encodings_are_exact() {
    assert_eq!(encode_var_length(0x0FFF_FFFF), vec![0xFF, 0xFF, 0xFF, 0x7F]);
    assert_eq!(parse_var_length(&[0xFF, 0xFF, 0xFF, 0x7F][..]), Ok((&b""[..], 0x0FFF_FFFF)));
    assert_eq!(parse_var_length(&[0x81, 0x80, 0x80, 0x00][..]), Ok((&b""[..], 0x20_0000)));
    assert_eq!(parse_var_length(&[0x00, 0x05][..]), Ok((&[0x05u8][..], 0)));
}

#[test]
fn var_length_incomplete() {
    assert_eq!(parse_var_length(&[][..]), Err(ParseError::Incomplete(Needed::Unknown)));
    assert_eq!(parse_var_length(&[0x81][..]), Err(ParseError::Incomplete(Needed::Unknown)));
    assert_eq!(
        parse_var_length(&[0x81, 0x80, 0x80][..]),
        Err(ParseError::Incomplete(Needed::Unknown))
    );
}

#[test]
fn var_length_bytes_incomplete() {
    assert_eq!(
        parse_var_length_bytes(&[0x05, 1, 2][..]),
        Err(ParseError::Incomplete(Needed::Size(3)))
    );
    assert_eq!(parse_var_length_bytes(&[0x00, 9][..]), Ok((&[9u8][..], &b""[..])));
}

#[test]
fn seven_bit_read() {
    assert_eq!(be_u7(&[0x7F][..]), Ok((&b""[..], 0x7F)));
    assert_eq!(be_u7(&[0x00, 0x01][..]), Ok((&[0x01u8][..], 0x00)));
    assert_eq!(be_u7(&[0x80][..]), Err(ParseError::Malformed { kind: ErrorKind::OutOfRange, remaining: 1 }));
    assert_eq!(be_u7(&[][..]), Err(ParseError::Incomplete(Needed::Size(1))));
}
