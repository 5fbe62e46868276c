use midi_parser::{
    parse_division, parse_format, parse_header_chunk, Division, ErrorKind, Fps, MidiFormat,
    MidiHeader, Needed, ParseError,
};

#[test]
fn test_header_chunk() {
    let midi_file = [77u8, 84, 104, 100, 0, 0, 0, 6, 0, 1, 0, 5, 1, 0];
    assert_eq!(
        parse_header_chunk(&midi_file[..]),
        Ok((
            &b""[..],
            MidiHeader {
                format: MidiFormat::MultipleTrack(5),
                division: Division::Metrical(256),
            }
        ))
    );
}

#[test]
fn header_rejects_length_other_than_six() {
    let midi_file = [77u8, 84, 104, 100, 0, 0, 0, 7, 0, 1, 0, 5, 1, 0, 0];
    assert_eq!(
        parse_header_chunk(&midi_file[..]),
        Err(ParseError::Malformed { kind: ErrorKind::HeaderLength, remaining: 11 })
    );
}

#[test]
fn header_rejects_unknown_format() {
    let midi_file = [77u8, 84, 104, 100, 0, 0, 0, 6, 0, 3, 0, 5, 1, 0];
    assert_eq!(
        parse_header_chunk(&midi_file[..]),
        Err(ParseError::Malformed { kind: ErrorKind::UnknownFormat, remaining: 6 })
    );
}

#[test]
fn header_rejects_single_track_with_other_count() {
    let midi_file = [77u8, 84, 104, 100, 0, 0, 0, 6, 0, 0, 0, 2, 1, 0];
    assert_eq!(
        parse_header_chunk(&midi_file[..]),
        Err(ParseError::Malformed { kind: ErrorKind::TrackCount, remaining: 6 })
    );
    let midi_file = [77u8, 84, 104, 100, 0, 0, 0, 6, 0, 0, 0, 1, 0, 96];
    assert_eq!(
        parse_header_chunk(&midi_file[..]),
        Ok((
            &b""[..],
            MidiHeader { format: MidiFormat::SingleTrack, division: Division::Metrical(96) }
        ))
    );
}

#[test]
fn header_wrong_tag_and_truncation() {
    let midi_file = [77u8, 84, 114, 107, 0, 0, 0, 6, 0, 1, 0, 5, 1, 0];
    assert_eq!(
        parse_header_chunk(&midi_file[..]),
        Err(ParseError::Malformed { kind: ErrorKind::TagMismatch, remaining: 14 })
    );
    assert_eq!(
        parse_header_chunk(&[77u8, 84][..]),
        Err(ParseError::Incomplete(Needed::Size(2)))
    );
    let midi_file = [77u8, 84, 104, 100, 0, 0, 0, 6, 0, 2, 0, 3];
    assert_eq!(
        parse_header_chunk(&midi_file[..]),
        Err(ParseError::Incomplete(Needed::Size(2)))
    );
}

#[test]
fn format_codes() {
    assert_eq!(parse_format(&[0, 2, 0, 4, 9][..]), Ok((&[9u8][..], MidiFormat::MultipleSong(4))));
    assert_eq!(parse_format(&[0, 1, 1, 0][..]), Ok((&b""[..], MidiFormat::MultipleTrack(256))));
    assert_eq!(parse_format(&[0, 1][..]), Err(ParseError::Incomplete(Needed::Size(2))));
    assert_eq!(MidiFormat::SingleTrack.count(), 1);
    assert_eq!(MidiFormat::MultipleTrack(5).count(), 5);
    assert_eq!(MidiFormat::MultipleSong(0).count(), 0);
}

#[test]
fn division_timecode() {
    assert_eq!(
        parse_division(&[0xE8, 0x04][..]),
        Ok((&b""[..], Division::Timecode { fps: Fps::TwentyFour, res: 4 }))
    );
    assert_eq!(
        parse_division(&[0xE7, 0x28][..]),
        Ok((&b""[..], Division::Timecode { fps: Fps::TwentyFive, res: 40 }))
    );
    assert_eq!(
        parse_division(&[0xE3, 0x50][..]),
        Ok((&b""[..], Division::Timecode { fps: Fps::TwentyNine, res: 80 }))
    );
    assert_eq!(
        parse_division(&[0xE2, 0x64, 7][..]),
        Ok((&[7u8][..], Division::Timecode { fps: Fps::Thirty, res: 100 }))
    );
    assert_eq!(parse_division(&[0x81, 0x00][..]), Err(ParseError::Malformed { kind: ErrorKind::UnknownFps, remaining: 2 }));
    assert_eq!(parse_division(&[0x7F, 0xFF][..]), Ok((&b""[..], Division::Metrical(0x7FFF))));
    assert_eq!(parse_division(&[0x01][..]), Err(ParseError::Incomplete(Needed::Size(1))));
}

#[test]
fn fps_numbers() {
    assert_eq!(u8::from(Fps::TwentyFour), 24);
    assert_eq!(u8::from(Fps::TwentyFive), 25);
    assert_eq!(u8::from(Fps::TwentyNine), 29);
    assert_eq!(u8::from(Fps::Thirty), 30);
}
