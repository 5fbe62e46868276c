//! The decoders, from the primitive reads up to a whole file.
pub mod event;
pub mod header;
pub mod meta;
pub mod midi;
pub mod sysex;
pub mod track;
pub mod util;

use crate::error::{result_view, ParseError, ParseResult};
use crate::types::{MidiHeader, SimpleMidiFile, SpecEvent, SpecMidiFile, Track};
use header::{parse_header_chunk, spec_header_chunk};
use track::{parse_track_chunk, spec_track_chunk};
use vstd::prelude::*;

verus! {

/// Decoding `n` track chunks one after the other.
pub open spec fn spec_tracks(s: Seq<u8>, n: nat) -> Result<(Seq<u8>, Seq<Seq<SpecEvent>>), ParseError>
    decreases n,
{
    if n == 0 {
        Ok((s, seq![]))
    } else {
        match spec_track_chunk(s) {
            Err(e) => Err(e),
            Ok((s, t)) => match spec_tracks(s, (n - 1) as nat) {
                Err(e) => Err(e),
                Ok((s, ts)) => Ok((s, seq![t] + ts)),
            },
        }
    }
}

/// Decoding a file: the header chunk, then as many track chunks as the header declares. What
/// follows the last of them is left.
pub open spec fn spec_midi(s: Seq<u8>) -> Result<(Seq<u8>, SpecMidiFile), ParseError> {
    match spec_header_chunk(s) {
        Err(e) => Err(e),
        Ok((s, header)) => match spec_tracks(s, header.format.spec_count() as nat) {
            Err(e) => Err(e),
            Ok((s, tracks)) => Ok((s, SpecMidiFile { header, tracks })),
        },
    }
}

/// The tracks of `r`, after the tracks `done`.
spec fn after_tracks(
    done: Seq<Seq<SpecEvent>>,
    r: Result<(Seq<u8>, Seq<Seq<SpecEvent>>), ParseError>,
) -> Result<(Seq<u8>, Seq<Seq<SpecEvent>>), ParseError> {
    match r {
        Err(e) => Err(e),
        Ok((s, ts)) => Ok((s, done + ts)),
    }
}

/// Decodes a file: the header chunk, then exactly as many track chunks as its format declares.
/// Bytes after the last track are not read; they are returned as the rest of the input.
pub fn parse_midi<'a>(i: &'a [u8]) -> (r: ParseResult<'a, SimpleMidiFile<'a>>)
    ensures
        result_view(r) == spec_midi(i@),
{
    let (after_header, header) = parse_header_chunk(i)?;
    let count = header.format.count();
    let mut rest = after_header;
    let mut tracks: Vec<Track<'a>> = Vec::new();
    let mut k: u16 = 0;
    while k < count
        invariant
            k <= count,
            count == header.format.spec_count(),
            spec_header_chunk(i@) == Ok::<(Seq<u8>, MidiHeader), ParseError>((after_header@, header)),
            spec_tracks(after_header@, count as nat) == after_tracks(
                tracks@.map_values(|t: Track<'a>| t@),
                spec_tracks(rest@, (count - k) as nat),
            ),
        decreases count - k,
    {
        let (rest_after, track) = parse_track_chunk(rest)?;
        proof {
            let done = tracks@.map_values(|t: Track<'a>| t@);
            assert(tracks@.push(track).map_values(|t: Track<'a>| t@) =~= done.push(track@));
            if let Ok((s, ts)) = spec_tracks(rest_after@, (count - k - 1) as nat) {
                assert(done + (seq![track@] + ts) =~= done.push(track@) + ts);
            }
        }
        rest = rest_after;
        tracks.push(track);
        k += 1;
    }
    proof {
        assert(tracks@.map_values(|t: Track<'a>| t@) + seq![] =~= tracks@.map_values(
            |t: Track<'a>| t@,
        ));
    }
    Ok((rest, SimpleMidiFile { header, tracks }))
}

/// Decoding depends on the input's bytes alone: two decodings of inputs with the same bytes,
/// such as two decodings of one input, give structurally equal results.
pub proof fn lemma_decode_deterministic<'a, 'b>(
    a: &'a [u8],
    b: &'b [u8],
    ra: ParseResult<'a, SimpleMidiFile<'a>>,
    rb: ParseResult<'b, SimpleMidiFile<'b>>,
)
    requires
        a@ == b@,
        result_view(ra) == spec_midi(a@),
        result_view(rb) == spec_midi(b@),
    ensures
        result_view(ra) == result_view(rb),
{
}

} // verus!
