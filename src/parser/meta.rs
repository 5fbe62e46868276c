//! Meta events.
use crate::error::{malformed, result_view, ErrorKind, ParseError, ParseResult};
use crate::parser::util::{
    be_u8, lemma_byte_extends, lemma_var_length_extends, marker, parse_var_length_bytes,
    spec_be_u8, spec_marker, spec_var_length_bytes, u16_be,
};
use crate::types::{Fps, KeySignature, MetaEvent, SMPTEOffset, SpecMetaEvent, TimeSignature};
use vstd::prelude::*;

verus! {

/// The key with `sharps` sharps (or `-sharps` flats) in the mode that `minor` gives (0 for
/// major, 1 for minor); none for a count outside [-7, 7] or another flag.
pub open spec fn spec_key(sharps: int, minor: u8) -> Option<KeySignature> {
    if minor <= 1 && -7 <= sharps <= 7 {
        Some(choose|k: KeySignature| k.spec_sharps() == sharps && k.spec_minor() == (minor == 1))
    } else {
        None
    }
}

proof fn lemma_key_unique(a: KeySignature, b: KeySignature)
    requires
        a.spec_sharps() == b.spec_sharps(),
        a.spec_minor() == b.spec_minor(),
    ensures
        a == b,
{
}

/// The key signature with `sharps` sharps (negative for flats) in the mode that `minor` gives:
/// 0 for major, 1 for minor. `None` for any other flag, or a count outside [-7, 7].
pub fn parse_to_key(sharps: i8, minor: u8) -> (r: Option<KeySignature>)
    ensures
        r == spec_key(sharps as int, minor),
        r matches Some(k) ==> k.spec_sharps() == sharps && k.spec_minor() == (minor == 1),
{
    let minor = match minor {
        0 => false,
        1 => true,
        _ => return None,
    };
    let r = match (sharps, minor) {
        (0, true) => Some(KeySignature::AMinor),
        (0, false) => Some(KeySignature::CMajor),
        (1, true) => Some(KeySignature::EMinor),
        (1, false) => Some(KeySignature::GMajor),
        (2, true) => Some(KeySignature::BMinor),
        (2, false) => Some(KeySignature::DMajor),
        (3, true) => Some(KeySignature::FSharpMinor),
        (3, false) => Some(KeySignature::AMajor),
        (4, true) => Some(KeySignature::CSharpMinor),
        (4, false) => Some(KeySignature::EMajor),
        (5, true) => Some(KeySignature::GSharpMinor),
        (5, false) => Some(KeySignature::BMajor),
        (6, true) => Some(KeySignature::DSharpMinor),
        (6, false) => Some(KeySignature::FSharpMajor),
        (7, true) => Some(KeySignature::ASharpMinor),
        (7, false) => Some(KeySignature::CSharpMajor),
        (-1, true) => Some(KeySignature::DMinor),
        (-1, false) => Some(KeySignature::FMajor),
        (-2, true) => Some(KeySignature::GMinor),
        (-2, false) => Some(KeySignature::BFlatMajor),
        (-3, true) => Some(KeySignature::CMinor),
        (-3, false) => Some(KeySignature::EFlatMajor),
        (-4, true) => Some(KeySignature::FMinor),
        (-4, false) => Some(KeySignature::AFlatMajor),
        (-5, true) => Some(KeySignature::BFlatMinor),
        (-5, false) => Some(KeySignature::DFlatMajor),
        (-6, true) => Some(KeySignature::EFlatMinor),
        (-6, false) => Some(KeySignature::GFlatMajor),
        (-7, true) => Some(KeySignature::AFlatMinor),
        (-7, false) => Some(KeySignature::CFlatMajor),
        _ => None,
    };
    proof {
        if let Some(k) = r {
            lemma_key_unique(k, spec_key(sharps as int, if minor { 1u8 } else { 0u8 }).unwrap());
        }
    }
    r
}

/// The signed value of a byte in two's complement.
pub open spec fn signed_byte(b: u8) -> int {
    if b < 0x80 {
        b as int
    } else {
        b - 0x100
    }
}

/// The frame rate that the top two bits of an offset's first byte select.
pub open spec fn offset_fps(b: u8) -> Fps {
    if b < 0x40 {
        Fps::TwentyFour
    } else if b < 0x80 {
        Fps::TwentyFive
    } else if b < 0xC0 {
        Fps::TwentyNine
    } else {
        Fps::Thirty
    }
}

/// Decoding the payload `d` of a meta event of kind `code`.
pub open spec fn spec_meta_payload(code: u8, d: Seq<u8>) -> Result<SpecMetaEvent, ErrorKind> {
    let bad_length = Err(ErrorKind::PayloadLength);
    match code {
        0x00 => if d.len() == 2 {
            Ok(SpecMetaEvent::SequenceNumber(u16_be(d[0], d[1])))
        } else {
            bad_length
        },
        0x01 => Ok(SpecMetaEvent::Text(d)),
        0x02 => Ok(SpecMetaEvent::Copyright(d)),
        0x03 => Ok(SpecMetaEvent::SequenceOrTrackName(d)),
        0x04 => Ok(SpecMetaEvent::InstrumentName(d)),
        0x05 => Ok(SpecMetaEvent::Lyric(d)),
        0x06 => Ok(SpecMetaEvent::Marker(d)),
        0x07 => Ok(SpecMetaEvent::CuePoint(d)),
        0x08 => Ok(SpecMetaEvent::ProgramName(d)),
        0x09 => Ok(SpecMetaEvent::DeviceName(d)),
        0x20 => if d.len() == 1 {
            Ok(SpecMetaEvent::MidiChannelPrefix(d[0]))
        } else {
            bad_length
        },
        0x21 => if d.len() == 1 {
            Ok(SpecMetaEvent::MidiPort(d[0]))
        } else {
            bad_length
        },
        0x2F => if d.len() == 0 {
            Ok(SpecMetaEvent::EndOfTrack)
        } else {
            bad_length
        },
        0x51 => if d.len() == 3 {
            Ok(SpecMetaEvent::Tempo((d[0] * 0x1_0000 + d[1] * 0x100 + d[2]) as u32))
        } else {
            bad_length
        },
        0x54 => if d.len() == 5 {
            Ok(
                SpecMetaEvent::SMPTEOffset(
                    SMPTEOffset {
                        fps: offset_fps(d[0]),
                        hour: d[0] % 0x40,
                        minute: d[1],
                        second: d[2],
                        no_frames: d[3],
                        no_fractional_frames: d[4],
                    },
                ),
            )
        } else {
            bad_length
        },
        0x58 => if d.len() == 4 {
            Ok(
                SpecMetaEvent::TimeSignature(
                    TimeSignature {
                        top: d[0],
                        bottom: d[1],
                        ticks_per_metronome_click: d[2],
                        number_32nd_in_quarter: d[3],
                    },
                ),
            )
        } else {
            bad_length
        },
        0x59 => if d.len() < 2 {
            bad_length
        } else {
            match spec_key(signed_byte(d[0]), d[1]) {
                Some(k) => Ok(SpecMetaEvent::KeySignature(k)),
                None => Err(ErrorKind::KeySignature),
            }
        },
        0x7F => Ok(SpecMetaEvent::SequencerSpecificEvent(d)),
        _ => Ok(SpecMetaEvent::Unknown(code, d)),
    }
}

/// Decoding a meta event: the marker 0xFF, a kind, and a payload prefixed by its length. An
/// invalid payload is reported where the event starts.
pub open spec fn spec_meta_event(s: Seq<u8>) -> Result<(Seq<u8>, SpecMetaEvent), ParseError> {
    match spec_marker(s, 0xFF) {
        Err(e) => Err(e),
        Ok((s1, _)) => match spec_be_u8(s1) {
            Err(e) => Err(e),
            Ok((s2, code)) => match spec_var_length_bytes(s2) {
                Err(e) => Err(e),
                Ok((s3, d)) => match spec_meta_payload(code, d) {
                    Err(k) => Err(malformed(k, s)),
                    Ok(ev) => Ok((s3, ev)),
                },
            },
        },
    }
}

pub(crate) proof fn lemma_meta_event_extends(s: Seq<u8>, t: Seq<u8>)
    ensures
        spec_meta_event(s) matches Ok((r, v)) ==> spec_meta_event(s + t) == Ok::<(Seq<u8>, SpecMetaEvent), ParseError>((r + t, v)),
{
    lemma_byte_extends(s, t, 0xFF);
    if let Ok((s1, _)) = spec_marker(s, 0xFF) {
        lemma_byte_extends(s1, t, 0);
        if let Ok((s2, _)) = spec_be_u8(s1) {
            lemma_var_length_extends(s2, t);
        }
    }
}

/// Decodes the payload of a meta event of kind `code`.
fn parse_meta_payload<'a>(code: u8, data: &'a [u8]) -> (r: Result<MetaEvent<'a>, ErrorKind>)
    ensures
        match r {
            Ok(ev) => spec_meta_payload(code, data@) == Ok::<SpecMetaEvent, ErrorKind>(ev@),
            Err(k) => spec_meta_payload(code, data@) == Err::<SpecMetaEvent, ErrorKind>(k),
        },
{
    match code {
        0x00 => {
            if data.len() != 2 {
                return Err(ErrorKind::PayloadLength);
            }
            Ok(MetaEvent::SequenceNumber((data[0] as u16) * 0x100 + data[1] as u16))
        },
        0x01 => Ok(MetaEvent::Text(data)),
        0x02 => Ok(MetaEvent::Copyright(data)),
        0x03 => Ok(MetaEvent::SequenceOrTrackName(data)),
        0x04 => Ok(MetaEvent::InstrumentName(data)),
        0x05 => Ok(MetaEvent::Lyric(data)),
        0x06 => Ok(MetaEvent::Marker(data)),
        0x07 => Ok(MetaEvent::CuePoint(data)),
        0x08 => Ok(MetaEvent::ProgramName(data)),
        0x09 => Ok(MetaEvent::DeviceName(data)),
        0x20 => {
            if data.len() != 1 {
                return Err(ErrorKind::PayloadLength);
            }
            Ok(MetaEvent::MidiChannelPrefix(data[0]))
        },
        0x21 => {
            if data.len() != 1 {
                return Err(ErrorKind::PayloadLength);
            }
            Ok(MetaEvent::MidiPort(data[0]))
        },
        0x2F => {
            if data.len() != 0 {
                return Err(ErrorKind::PayloadLength);
            }
            Ok(MetaEvent::EndOfTrack)
        },
        0x51 => {
            if data.len() != 3 {
                return Err(ErrorKind::PayloadLength);
            }
            // a 24-bit big-endian integer
            Ok(
                MetaEvent::Tempo(
                    (data[0] as u32) * 0x1_0000 + (data[1] as u32) * 0x100 + data[2] as u32,
                ),
            )
        },
        0x54 => {
            if data.len() != 5 {
                return Err(ErrorKind::PayloadLength);
            }
            // the top 2 bits select the frame rate, the low 6 bits are the hour
            let fps = match data[0] / 0x40 {
                0 => Fps::TwentyFour,
                1 => Fps::TwentyFive,
                2 => Fps::TwentyNine,
                _ => Fps::Thirty,
            };
            Ok(
                MetaEvent::SMPTEOffset(
                    SMPTEOffset {
                        fps,
                        hour: data[0] % 0x40,
                        minute: data[1],
                        second: data[2],
                        no_frames: data[3],
                        no_fractional_frames: data[4],
                    },
                ),
            )
        },
        0x58 => {
            if data.len() != 4 {
                return Err(ErrorKind::PayloadLength);
            }
            Ok(
                MetaEvent::TimeSignature(
                    TimeSignature {
                        top: data[0],
                        bottom: data[1],
                        ticks_per_metronome_click: data[2],
                        number_32nd_in_quarter: data[3],
                    },
                ),
            )
        },
        0x59 => {
            if data.len() < 2 {
                return Err(ErrorKind::PayloadLength);
            }
            // the count is a signed byte in two's complement
            let sharps: i8 = if data[0] < 0x80 {
                data[0] as i8
            } else {
                (data[0] - 0x80) as i8 - 0x7F - 1
            };
            match parse_to_key(sharps, data[1]) {
                Some(k) => Ok(MetaEvent::KeySignature(k)),
                None => Err(ErrorKind::KeySignature),
            }
        },
        0x7F => Ok(MetaEvent::SequencerSpecificEvent(data)),
        _ => Ok(MetaEvent::Unknown(code, data)),
    }
}

/// Decodes a meta event: the marker 0xFF, a byte that gives its kind, then its payload,
/// prefixed by its length as a variable-length quantity. A kind that this decoder does not
/// know is no error: it gives [`MetaEvent::Unknown`] with the payload as it stands.
pub fn parse_meta_event<'a>(i: &'a [u8]) -> (r: ParseResult<'a, MetaEvent<'a>>)
    ensures
        result_view(r) == spec_meta_event(i@),
{
    let start = i.len();
    let (i, _) = marker(i, 0xFF)?;
    let (i, code) = be_u8(i)?;
    let (i, data) = parse_var_length_bytes(i)?;
    match parse_meta_payload(code, data) {
        Ok(evt) => Ok((i, evt)),
        Err(kind) => Err(ParseError::Malformed { kind, remaining: start }),
    }
}

} // verus!
