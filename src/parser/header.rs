//! The header chunk.
use crate::error::{malformed, result_view, ErrorKind, ParseError, ParseResult};
use crate::parser::util::{
    be_u16, be_u32, lemma_tag_matches, spec_be_u16, spec_be_u32, spec_tag, spec_take, tag, take,
    u16_be, u32_be,
};
use crate::types::{Division, Fps, MidiFormat, MidiHeader};
use vstd::prelude::*;

verus! {

/// The tag of a header chunk, "MThd".
pub open spec fn header_tag() -> Seq<u8> {
    seq![0x4Du8, 0x54u8, 0x68u8, 0x64u8]
}

/// Decoding the format code and the track count. Either error is reported where the format
/// code starts.
pub open spec fn spec_format(s: Seq<u8>) -> Result<(Seq<u8>, MidiFormat), ParseError> {
    match spec_be_u16(s) {
        Err(e) => Err(e),
        Ok((s1, code)) => if code > 2 {
            Err(malformed(ErrorKind::UnknownFormat, s))
        } else {
            match spec_be_u16(s1) {
                Err(e) => Err(e),
                Ok((s2, n)) => if code == 0 {
                    if n == 1 {
                        Ok((s2, MidiFormat::SingleTrack))
                    } else {
                        Err(malformed(ErrorKind::TrackCount, s))
                    }
                } else if code == 1 {
                    Ok((s2, MidiFormat::MultipleTrack(n)))
                } else {
                    Ok((s2, MidiFormat::MultipleSong(n)))
                },
            }
        },
    }
}

/// Decodes the format code (0, 1 or 2) and the number of tracks, which must be 1 for format 0.
pub fn parse_format<'a>(i: &'a [u8]) -> (r: ParseResult<'a, MidiFormat>)
    ensures
        result_view(r) == spec_format(i@),
{
    let start = i.len();
    let (i, format) = be_u16(i)?;
    match format {
        0 => {
            let (i, num_tracks) = be_u16(i)?;
            if num_tracks != 1 {
                Err(ParseError::Malformed { kind: ErrorKind::TrackCount, remaining: start })
            } else {
                Ok((i, MidiFormat::SingleTrack))
            }
        },
        1 => {
            let (i, num_tracks) = be_u16(i)?;
            Ok((i, MidiFormat::MultipleTrack(num_tracks)))
        },
        2 => {
            let (i, num_tracks) = be_u16(i)?;
            Ok((i, MidiFormat::MultipleSong(num_tracks)))
        },
        _ => Err(ParseError::Malformed { kind: ErrorKind::UnknownFormat, remaining: start }),
    }
}

/// The frame rate of a timecode division, from its first byte: minus the rate in two's
/// complement.
pub open spec fn timecode_fps(b: u8) -> Option<Fps> {
    match b {
        0xE8 => Some(Fps::TwentyFour),
        0xE7 => Some(Fps::TwentyFive),
        0xE3 => Some(Fps::TwentyNine),
        0xE2 => Some(Fps::Thirty),
        _ => None,
    }
}

/// Decoding the division: a timecode when the high bit of the first byte is set, else ticks
/// per quarter note.
pub open spec fn spec_division(s: Seq<u8>) -> Result<(Seq<u8>, Division), ParseError> {
    match spec_take(s, 2) {
        Err(e) => Err(e),
        Ok((rest, b)) => if b[0] >= 0x80 {
            match timecode_fps(b[0]) {
                Some(fps) => Ok((rest, Division::Timecode { fps, res: b[1] })),
                None => Err(malformed(ErrorKind::UnknownFps, s)),
            }
        } else {
            Ok((rest, Division::Metrical(u16_be(b[0], b[1]))))
        },
    }
}

/// Decodes the two bytes of the division. With the high bit of the first byte set, that byte
/// selects the frame rate (0xE8, 0xE7, 0xE3, 0xE2 for 24, 25, 29, 30) and the second is the
/// sub-frame resolution; else the two bytes, big-endian, are the ticks per quarter note.
pub fn parse_division<'a>(i: &'a [u8]) -> (r: ParseResult<'a, Division>)
    ensures
        result_view(r) == spec_division(i@),
{
    let start = i.len();
    let (i, bytes) = take(i, 2)?;
    let division = if bytes[0] >= 0x80 {
        let fps = match bytes[0] {
            0xE8 => Fps::TwentyFour,
            0xE7 => Fps::TwentyFive,
            0xE3 => Fps::TwentyNine,
            0xE2 => Fps::Thirty,
            _ => return Err(ParseError::Malformed { kind: ErrorKind::UnknownFps, remaining: start }),
        };
        Division::Timecode { fps, res: bytes[1] }
    } else {
        Division::Metrical((bytes[0] as u16) * 0x100 + bytes[1] as u16)
    };
    Ok((i, division))
}

/// Decoding the header chunk: its tag, its length, which must be 6, the format and the
/// division. A wrong length is reported where the length starts.
pub open spec fn spec_header_chunk(s: Seq<u8>) -> Result<(Seq<u8>, MidiHeader), ParseError> {
    match spec_tag(s, header_tag()) {
        Err(e) => Err(e),
        Ok((s1, _)) => match spec_be_u32(s1) {
            Err(e) => Err(e),
            Ok((s, len)) => if len != 6 {
                Err(malformed(ErrorKind::HeaderLength, s1))
            } else {
                match spec_format(s) {
                    Err(e) => Err(e),
                    Ok((s, format)) => match spec_division(s) {
                        Err(e) => Err(e),
                        Ok((s, division)) => Ok((s, MidiHeader { format, division })),
                    },
                }
            },
        },
    }
}

/// A header chunk with the right tag is malformed when its declared length is not 6
/// ([`ErrorKind::HeaderLength`]), when its format code is not 0, 1 or 2
/// ([`ErrorKind::UnknownFormat`]), and when format 0 declares a track count other than 1
/// ([`ErrorKind::TrackCount`]).
pub proof fn lemma_header_rejects(s: Seq<u8>)
    ensures
        s.len() >= 8 && s.take(4) == header_tag() && u32_be(s.skip(4)) != 6
            ==> spec_header_chunk(s) == Err::<(Seq<u8>, MidiHeader), ParseError>(
            ParseError::Malformed { kind: ErrorKind::HeaderLength, remaining: (s.len() - 4) as usize },
        ),
        s.len() >= 10 && s.take(4) == header_tag() && u32_be(s.skip(4)) == 6 && u16_be(s[8], s[9])
            > 2 ==> spec_header_chunk(s) == Err::<(Seq<u8>, MidiHeader), ParseError>(
            ParseError::Malformed { kind: ErrorKind::UnknownFormat, remaining: (s.len() - 8) as usize },
        ),
        s.len() >= 12 && s.take(4) == header_tag() && u32_be(s.skip(4)) == 6 && u16_be(s[8], s[9])
            == 0 && u16_be(s[10], s[11]) != 1 ==> spec_header_chunk(s) == Err::<
            (Seq<u8>, MidiHeader),
            ParseError,
        >(ParseError::Malformed { kind: ErrorKind::TrackCount, remaining: (s.len() - 8) as usize }),
{
    if s.len() >= 8 && s.take(4) == header_tag() {
        lemma_tag_matches(s, header_tag());
        let s1 = s.skip(4);
        assert(s1.skip(4) =~= s.skip(8));
        if s.len() >= 10 {
            assert(s.skip(8)[0] == s[8] && s.skip(8)[1] == s[9]);
            assert(s.skip(8).skip(2) =~= s.skip(10));
        }
        if s.len() >= 12 {
            assert(s.skip(10)[0] == s[10] && s.skip(10)[1] == s[11]);
        }
    }
}

/// Decodes the 14-byte header chunk.
pub fn parse_header_chunk<'a>(i: &'a [u8]) -> (r: ParseResult<'a, MidiHeader>)
    ensures
        result_view(r) == spec_header_chunk(i@),
{
    let magic: [u8; 4] = [0x4D, 0x54, 0x68, 0x64];
    let (i, _) = tag(i, magic.as_slice())?;
    let at_length = i.len();
    let (i, hdr_len) = be_u32(i)?;
    if hdr_len != 6 {
        return Err(ParseError::Malformed { kind: ErrorKind::HeaderLength, remaining: at_length });
    }
    let (i, format) = parse_format(i)?;
    let (i, division) = parse_division(i)?;
    Ok((i, MidiHeader { format, division }))
}

} // verus!
