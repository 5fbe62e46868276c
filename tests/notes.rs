use midi_parser::{ErrorKind, Note};

#[test]
fn note_conversions() {
    assert_eq!(Note::try_from(127u8), Ok(Note::G9));
    assert_eq!(Note::try_from(0u8), Ok(Note::C1n));
    assert_eq!(Note::try_from(60u8), Ok(Note::C4));
    assert_eq!(Note::try_from(128u8), Err(ErrorKind::OutOfRange));
    assert_eq!(Note::try_from(255u8), Err(ErrorKind::OutOfRange));
    assert_eq!(Note::try_from(-1i8), Err(ErrorKind::OutOfRange));
    assert_eq!(Note::try_from(21i8), Ok(Note::A0));
}

#[test]
fn note_numbers_round_trip() {
    for n in 0u8..128 {
        let note = Note::try_from(n).unwrap();
        assert_eq!(u8::from(note), n);
        assert_eq!(i8::from(note), n as i8);
        assert_eq!(note.number(), n);
        assert_eq!(Note::from_u7(n), note);
    }
}
