use midi_parser::{
    parse_escape_sequence, parse_event, parse_meta_event, parse_midi_event, parse_sysex_message,
    parse_to_key, ErrorKind, EscapeSequence, Event, EventType, Fps, KeySignature, MetaEvent,
    MidiEvent, MidiEventType, Needed, Note, ParseError, SMPTEOffset, SystemExclusiveEvent,
    TimeSignature,
};

#[test]
fn channel_voice_events() {
    assert_eq!(
        parse_midi_event(&[0x90, 0x3C, 0x40, 0x11][..]),
        Ok((
            &[0x11u8][..],
            MidiEvent { channel: 0, event: MidiEventType::NoteOn(Note::C4, 0x40) }
        ))
    );
    assert_eq!(
        parse_midi_event(&[0x8F, 0x7F, 0x00][..]),
        Ok((&b""[..], MidiEvent { channel: 15, event: MidiEventType::NoteOff(Note::G9, 0) }))
    );
    assert_eq!(
        parse_midi_event(&[0xA3, 0x15, 0x22][..]),
        Ok((
            &b""[..],
            MidiEvent { channel: 3, event: MidiEventType::PolyphonicPressure(Note::A0, 0x22) }
        ))
    );
    assert_eq!(
        parse_midi_event(&[0xB1, 0x07, 0x64][..]),
        Ok((&b""[..], MidiEvent { channel: 1, event: MidiEventType::Controller(7, 100) }))
    );
    assert_eq!(
        parse_midi_event(&[0xC5, 0x10, 0x90][..]),
        Ok((&[0x90u8][..], MidiEvent { channel: 5, event: MidiEventType::ProgramChange(16) }))
    );
    assert_eq!(
        parse_midi_event(&[0xD9, 0x30][..]),
        Ok((&b""[..], MidiEvent { channel: 9, event: MidiEventType::ChannelPressure(0x30) }))
    );
    assert_eq!(
        parse_midi_event(&[0xE2, 0x00, 0x40][..]),
        Ok((&b""[..], MidiEvent { channel: 2, event: MidiEventType::PitchBend(0, 0x40) }))
    );
}

#[test]
fn channel_voice_errors() {
    assert_eq!(parse_midi_event(&[0x70, 0x00][..]), Err(ParseError::Malformed { kind: ErrorKind::UnknownStatus, remaining: 2 }));
    assert_eq!(parse_midi_event(&[0xF0, 0x00][..]), Err(ParseError::Malformed { kind: ErrorKind::UnknownStatus, remaining: 2 }));
    assert_eq!(parse_midi_event(&[0x90, 0x80, 0x00][..]), Err(ParseError::Malformed { kind: ErrorKind::OutOfRange, remaining: 2 }));
    assert_eq!(parse_midi_event(&[0x90, 0x3C][..]), Err(ParseError::Incomplete(Needed::Size(1))));
    assert_eq!(parse_midi_event(&[][..]), Err(ParseError::Incomplete(Needed::Size(1))));
}

#[test]
fn sysex_and_escape() {
    assert_eq!(
        parse_sysex_message(&[0xF0, 0x03, 0x43, 0x12, 0xF7, 0x00][..]),
        Ok((&[0x00u8][..], SystemExclusiveEvent(&[0x43, 0x12, 0xF7][..])))
    );
    assert_eq!(
        parse_escape_sequence(&[0xF7, 0x02, 0xF3, 0x01][..]),
        Ok((&b""[..], EscapeSequence(&[0xF3, 0x01][..])))
    );
    assert_eq!(parse_sysex_message(&[0xF7, 0x00][..]), Err(ParseError::Malformed { kind: ErrorKind::TagMismatch, remaining: 2 }));
    assert_eq!(parse_escape_sequence(&[0xF0, 0x00][..]), Err(ParseError::Malformed { kind: ErrorKind::TagMismatch, remaining: 2 }));
    assert_eq!(parse_sysex_message(&[0xF0, 0x04, 1][..]), Err(ParseError::Incomplete(Needed::Size(3))));
}

#[test]
fn meta_text_kinds() {
    let kinds: [(u8, fn(&'static [u8]) -> MetaEvent<'static>); 10] = [
        (0x01, MetaEvent::Text),
        (0x02, MetaEvent::Copyright),
        (0x03, MetaEvent::SequenceOrTrackName),
        (0x04, MetaEvent::InstrumentName),
        (0x05, MetaEvent::Lyric),
        (0x06, MetaEvent::Marker),
        (0x07, MetaEvent::CuePoint),
        (0x08, MetaEvent::ProgramName),
        (0x09, MetaEvent::DeviceName),
        (0x7F, MetaEvent::SequencerSpecificEvent),
    ];
    for (code, make) in kinds {
        let bytes = [0xFF, code, 0x03, b'a', b'b', b'c', 0x00];
        assert_eq!(parse_meta_event(&bytes[..]), Ok((&[0x00u8][..], make(&b"abc"[..]))));
    }
}

#[test]
fn meta_fixed_kinds() {
    assert_eq!(
        parse_meta_event(&[0xFF, 0x00, 0x02, 0x01, 0x02][..]),
        Ok((&b""[..], MetaEvent::SequenceNumber(0x0102)))
    );
    assert_eq!(
        parse_meta_event(&[0xFF, 0x20, 0x01, 0x0A][..]),
        Ok((&b""[..], MetaEvent::MidiChannelPrefix(10)))
    );
    assert_eq!(parse_meta_event(&[0xFF, 0x21, 0x01, 0x03][..]), Ok((&b""[..], MetaEvent::MidiPort(3))));
    assert_eq!(parse_meta_event(&[0xFF, 0x2F, 0x00][..]), Ok((&b""[..], MetaEvent::EndOfTrack)));
    assert_eq!(
        parse_meta_event(&[0xFF, 0x51, 0x03, 0x07, 0xA1, 0x20][..]),
        Ok((&b""[..], MetaEvent::Tempo(500_000)))
    );
    assert_eq!(
        parse_meta_event(&[0xFF, 0x54, 0x05, 0x61, 0x00, 0x03, 0x00, 0x00][..]),
        Ok((
            &b""[..],
            MetaEvent::SMPTEOffset(SMPTEOffset {
                fps: Fps::TwentyFive,
                hour: 0x21,
                minute: 0,
                second: 3,
                no_frames: 0,
                no_fractional_frames: 0,
            })
        ))
    );
    assert_eq!(
        parse_meta_event(&[0xFF, 0x54, 0x05, 0xD7, 0x3B, 0x3B, 0x1D, 0x63][..]),
        Ok((
            &b""[..],
            MetaEvent::SMPTEOffset(SMPTEOffset {
                fps: Fps::Thirty,
                hour: 0x17,
                minute: 59,
                second: 59,
                no_frames: 29,
                no_fractional_frames: 99,
            })
        ))
    );
    assert_eq!(
        parse_meta_event(&[0xFF, 0x58, 0x04, 0x06, 0x03, 0x24, 0x08][..]),
        Ok((
            &b""[..],
            MetaEvent::TimeSignature(TimeSignature {
                top: 6,
                bottom: 3,
                ticks_per_metronome_click: 36,
                number_32nd_in_quarter: 8,
            })
        ))
    );
    assert_eq!(
        parse_meta_event(&[0xFF, 0x60, 0x02, 0x01, 0x02][..]),
        Ok((&b""[..], MetaEvent::Unknown(0x60, &[0x01, 0x02][..])))
    );
}

#[test]
fn meta_payload_lengths() {
    let bad = [
        &[0xFF, 0x00, 0x01, 0x01][..],
        &[0xFF, 0x00, 0x03, 0x01, 0x02, 0x03][..],
        &[0xFF, 0x20, 0x00][..],
        &[0xFF, 0x21, 0x02, 0x00, 0x00][..],
        &[0xFF, 0x2F, 0x01, 0x00][..],
        &[0xFF, 0x51, 0x02, 0x07, 0xA1][..],
        &[0xFF, 0x54, 0x04, 0, 0, 0, 0][..],
        &[0xFF, 0x58, 0x05, 4, 2, 24, 8, 0][..],
        &[0xFF, 0x59, 0x01, 0x00][..],
    ];
    for bytes in bad {
        assert_eq!(parse_meta_event(bytes), Err(ParseError::Malformed { kind: ErrorKind::PayloadLength, remaining: bytes.len() }), "{:x?}", bytes);
    }
    assert_eq!(parse_meta_event(&[0xFE, 0x00][..]), Err(ParseError::Malformed { kind: ErrorKind::TagMismatch, remaining: 2 }));
    assert_eq!(parse_meta_event(&[0xFF, 0x01, 0x05, b'a'][..]), Err(ParseError::Incomplete(Needed::Size(4))));
    assert_eq!(parse_meta_event(&[0xFF][..]), Err(ParseError::Incomplete(Needed::Size(1))));
}

#[test]
fn key_signature_table() {
    assert_eq!(parse_to_key(0, 0), Some(KeySignature::CMajor));
    assert_eq!(parse_to_key(-3, 1), Some(KeySignature::CMinor));
    assert_eq!(parse_to_key(0, 1), Some(KeySignature::AMinor));
    assert_eq!(parse_to_key(7, 0), Some(KeySignature::CSharpMajor));
    assert_eq!(parse_to_key(-7, 1), Some(KeySignature::AFlatMinor));
    assert_eq!(parse_to_key(8, 0), None);
    assert_eq!(parse_to_key(-8, 1), None);
    assert_eq!(parse_to_key(0, 2), None);
}

#[test]
fn key_signature_events() {
    assert_eq!(
        parse_meta_event(&[0xFF, 0x59, 0x02, 0xFD, 0x01][..]),
        Ok((&b""[..], MetaEvent::KeySignature(KeySignature::CMinor)))
    );
    assert_eq!(
        parse_meta_event(&[0xFF, 0x59, 0x02, 0x02, 0x00][..]),
        Ok((&b""[..], MetaEvent::KeySignature(KeySignature::DMajor)))
    );
    assert_eq!(
        parse_meta_event(&[0xFF, 0x59, 0x02, 0x08, 0x00][..]),
        Err(ParseError::Malformed { kind: ErrorKind::KeySignature, remaining: 5 })
    );
    assert_eq!(
        parse_meta_event(&[0xFF, 0x59, 0x02, 0x00, 0x02][..]),
        Err(ParseError::Malformed { kind: ErrorKind::KeySignature, remaining: 5 })
    );
}

#[test]
fn key_signature_counts() {
    assert_eq!(KeySignature::CMajor.count(), 0);
    assert_eq!(KeySignature::AFlatMajor.count(), 4);
    assert_eq!(KeySignature::FSharpMinor.count(), 3);
    assert!(KeySignature::EMajor.is_sharps());
    assert!(!KeySignature::BFlatMinor.is_sharps());
    assert_eq!(KeySignature::CFlatMajor.for_display(), (7, false));
    assert_eq!(KeySignature::ASharpMinor.for_display(), (7, true));
    assert_eq!(KeySignature::AMinor.for_display().0, 0);
}

#[test]
fn event_dispatch() {
    assert_eq!(
        parse_event(&[0x00, 0x90, 0x3C, 0x40][..]),
        Ok((
            &b""[..],
            Event {
                delta_time: 0,
                event: EventType::Midi(MidiEvent {
                    channel: 0,
                    event: MidiEventType::NoteOn(Note::C4, 0x40),
                }),
            }
        ))
    );
    assert_eq!(
        parse_event(&[0x81, 0x00, 0xF0, 0x01, 0x7E][..]),
        Ok((
            &b""[..],
            Event {
                delta_time: 128,
                event: EventType::SystemExclusive(SystemExclusiveEvent(&[0x7E][..])),
            }
        ))
    );
    assert_eq!(
        parse_event(&[0x05, 0xF7, 0x00][..]),
        Ok((&b""[..], Event { delta_time: 5, event: EventType::EscapeSequence(EscapeSequence(&b""[..])) }))
    );
    assert_eq!(
        parse_event(&[0x60, 0xFF, 0x2F, 0x00, 0x4D][..]),
        Ok((&[0x4Du8][..], Event { delta_time: 0x60, event: EventType::Meta(MetaEvent::EndOfTrack) }))
    );
    assert_eq!(parse_event(&[0x00, 0xF1][..]), Err(ParseError::Malformed { kind: ErrorKind::UnknownStatus, remaining: 1 }));
    assert_eq!(parse_event(&[0x00, 0x3C][..]), Err(ParseError::Malformed { kind: ErrorKind::UnknownStatus, remaining: 1 }));
    assert_eq!(parse_event(&[0x00][..]), Err(ParseError::Incomplete(Needed::Size(1))));
    assert_eq!(parse_event(&[0x80][..]), Err(ParseError::Incomplete(Needed::Unknown)));
}
