//! Channel-voice events.
use crate::error::{malformed, result_view, ErrorKind, ParseError, ParseResult};
use crate::note::{note_of, Note};
use crate::parser::util::{be_u7, be_u8, lemma_byte_extends, spec_be_u7, spec_be_u8};
use crate::types::{MidiEvent, MidiEventType};
use vstd::prelude::*;

verus! {

/// Whether a status byte starts a channel-voice event: its high nibble is 0x8 to 0xE.
pub open spec fn is_channel_status(status: u8) -> bool {
    0x80 <= status < 0xF0
}

/// Whether the event kind of a channel-voice status byte carries one data byte (program change
/// and channel pressure) rather than two.
pub open spec fn has_one_data_byte(status: u8) -> bool {
    0xC0 <= status < 0xE0
}

/// The event of kind `status / 16` with data bytes `a` and, for kinds that take two, `b`.
pub open spec fn channel_event(status: u8, a: u8, b: u8) -> MidiEventType {
    match status / 16 {
        0x8 => MidiEventType::NoteOff(note_of(a), b),
        0x9 => MidiEventType::NoteOn(note_of(a), b),
        0xA => MidiEventType::PolyphonicPressure(note_of(a), b),
        0xB => MidiEventType::Controller(a, b),
        0xC => MidiEventType::ProgramChange(a),
        0xD => MidiEventType::ChannelPressure(a),
        _ => MidiEventType::PitchBend(a, b),
    }
}

/// Decoding a channel-voice event: a status byte whose high nibble gives the kind and whose
/// low nibble gives the channel, then one or two 7-bit data bytes.
pub open spec fn spec_midi_event(s: Seq<u8>) -> Result<(Seq<u8>, MidiEvent), ParseError> {
    match spec_be_u8(s) {
        Err(e) => Err(e),
        Ok((rest, status)) => if !is_channel_status(status) {
            Err(malformed(ErrorKind::UnknownStatus, s))
        } else {
            match spec_be_u7(rest) {
                Err(e) => Err(e),
                Ok((s1, a)) => if has_one_data_byte(status) {
                    Ok((s1, MidiEvent { channel: status % 16, event: channel_event(status, a, 0) }))
                } else {
                    match spec_be_u7(s1) {
                        Err(e) => Err(e),
                        Ok((s2, b)) => Ok(
                            (
                                s2,
                                MidiEvent { channel: status % 16, event: channel_event(status, a, b) },
                            ),
                        ),
                    }
                },
            }
        },
    }
}

pub(crate) proof fn lemma_midi_event_extends(s: Seq<u8>, t: Seq<u8>)
    ensures
        spec_midi_event(s) matches Ok((r, v)) ==> spec_midi_event(s + t) == Ok::<(Seq<u8>, MidiEvent), ParseError>((r + t, v)),
{
    lemma_byte_extends(s, t, 0);
    if let Ok((s1, _)) = spec_be_u8(s) {
        lemma_byte_extends(s1, t, 0);
        if let Ok((s2, _)) = spec_be_u7(s1) {
            lemma_byte_extends(s2, t, 0);
        }
    }
}

/// Decodes a channel-voice event. A status byte whose high nibble is outside 0x8 to 0xE starts
/// no such event: [`ErrorKind::UnknownStatus`].
pub fn parse_midi_event<'a>(i: &'a [u8]) -> (r: ParseResult<'a, MidiEvent>)
    ensures
        result_view(r) == spec_midi_event(i@),
{
    let start = i.len();
    let (i, code_chan) = be_u8(i)?;
    let channel = code_chan % 16;
    let (i, evt_type) = match code_chan / 16 {
        0x8 => {
            let (i, note_code) = be_u7(i)?;
            let (i, velocity) = be_u7(i)?;
            (i, MidiEventType::NoteOff(Note::from_u7(note_code), velocity))
        },
        0x9 => {
            let (i, note_code) = be_u7(i)?;
            let (i, velocity) = be_u7(i)?;
            (i, MidiEventType::NoteOn(Note::from_u7(note_code), velocity))
        },
        0xA => {
            let (i, note_code) = be_u7(i)?;
            let (i, pressure) = be_u7(i)?;
            (i, MidiEventType::PolyphonicPressure(Note::from_u7(note_code), pressure))
        },
        0xB => {
            let (i, controller) = be_u7(i)?;
            let (i, value) = be_u7(i)?;
            (i, MidiEventType::Controller(controller, value))
        },
        0xC => {
            let (i, program) = be_u7(i)?;
            (i, MidiEventType::ProgramChange(program))
        },
        0xD => {
            let (i, pressure) = be_u7(i)?;
            (i, MidiEventType::ChannelPressure(pressure))
        },
        0xE => {
            let (i, lsb) = be_u7(i)?;
            let (i, msb) = be_u7(i)?;
            (i, MidiEventType::PitchBend(lsb, msb))
        },
        _ => return Err(ParseError::Malformed { kind: ErrorKind::UnknownStatus, remaining: start }),
    };
    Ok((i, MidiEvent { channel, event: evt_type }))
}

} // verus!
