use midi_parser::{
    parse_midi, parse_track_chunk, parse_track_chunk_header, Division, ErrorKind, Event,
    EventType, MetaEvent, MidiEvent, MidiEventType, MidiFormat, MidiHeader, Needed, Note,
    ParseError, SimpleMidiFile, Track,
};

const TRACK: [u8; 20] = [
    0x4D, 0x54, 0x72, 0x6B, 0x00, 0x00, 0x00, 0x0C, // MTrk, 12 bytes
    0x00, 0x90, 0x3C, 0x40, // note on
    0x60, 0x80, 0x3C, 0x00, // note off after 96 ticks
    0x00, 0xFF, 0x2F, 0x00, // end of track
];

fn expected_events() -> Vec<Event<'static>> {
    vec![
        Event {
            delta_time: 0,
            event: EventType::Midi(MidiEvent { channel: 0, event: MidiEventType::NoteOn(Note::C4, 0x40) }),
        },
        Event {
            delta_time: 0x60,
            event: EventType::Midi(MidiEvent { channel: 0, event: MidiEventType::NoteOff(Note::C4, 0) }),
        },
        Event { delta_time: 0, event: EventType::Meta(MetaEvent::EndOfTrack) },
    ]
}

#[test]
fn track_exactly_filled() {
    let mut bytes = TRACK.to_vec();
    bytes.extend_from_slice(&[0xAA, 0xBB]);
    assert_eq!(
        parse_track_chunk(&bytes[..]),
        Ok((&[0xAAu8, 0xBB][..], Track { events: expected_events() }))
    );
    let empty = [0x4D, 0x54, 0x72, 0x6B, 0, 0, 0, 0];
    assert_eq!(parse_track_chunk(&empty[..]), Ok((&b""[..], Track { events: vec![] })));
}

#[test]
fn track_longer_than_input() {
    let bytes = &TRACK[..18];
    assert_eq!(parse_track_chunk(bytes), Err(ParseError::Incomplete(Needed::Size(2))));
    assert_eq!(parse_track_chunk_header(&TRACK[..6]), Err(ParseError::Incomplete(Needed::Size(2))));
}

#[test]
fn track_with_truncated_last_event() {
    // The declared length stops in the middle of the end-of-track event.
    let mut bytes = TRACK.to_vec();
    bytes[7] = 0x0B;
    assert_eq!(parse_track_chunk(&bytes[..]), Err(ParseError::Malformed { kind: ErrorKind::TruncatedEvent, remaining: 4 }));
    bytes[7] = 0x09;
    assert_eq!(parse_track_chunk(&bytes[..]), Err(ParseError::Malformed { kind: ErrorKind::TruncatedEvent, remaining: 4 }));
}

#[test]
fn track_with_malformed_event_or_tag() {
    let mut bytes = TRACK.to_vec();
    bytes[9] = 0x70;
    assert_eq!(parse_track_chunk(&bytes[..]), Err(ParseError::Malformed { kind: ErrorKind::UnknownStatus, remaining: 11 }));
    let mut bytes = TRACK.to_vec();
    bytes[3] = 0x64;
    assert_eq!(parse_track_chunk(&bytes[..]), Err(ParseError::Malformed { kind: ErrorKind::TagMismatch, remaining: 20 }));
}

#[test]
fn whole_file() {
    let mut bytes = vec![0x4D, 0x54, 0x68, 0x64, 0, 0, 0, 6, 0, 1, 0, 2, 0, 96];
    bytes.extend_from_slice(&TRACK);
    bytes.extend_from_slice(&TRACK);
    bytes.push(0x00);
    let expected = SimpleMidiFile {
        header: MidiHeader { format: MidiFormat::MultipleTrack(2), division: Division::Metrical(96) },
        tracks: vec![Track { events: expected_events() }, Track { events: expected_events() }],
    };
    assert_eq!(parse_midi(&bytes[..]), Ok((&[0x00u8][..], expected)));
}

#[test]
fn whole_file_missing_track() {
    let mut bytes = vec![0x4D, 0x54, 0x68, 0x64, 0, 0, 0, 6, 0, 2, 0, 2, 0, 96];
    bytes.extend_from_slice(&TRACK);
    assert_eq!(parse_midi(&bytes[..]), Err(ParseError::Incomplete(Needed::Size(4))));
}

#[test]
fn decoding_twice_gives_equal_results() {
    let mut bytes = vec![0x4D, 0x54, 0x68, 0x64, 0, 0, 0, 6, 0, 0, 0, 1, 0xE7, 0x28];
    bytes.extend_from_slice(&TRACK);
    let first = parse_midi(&bytes[..]);
    let second = parse_midi(&bytes[..]);
    assert!(first.is_ok());
    assert_eq!(first, second);
}
