//! Track chunks.
use crate::error::{result_view, short_by, ErrorKind, ParseError, ParseResult};
use crate::parser::event::{
    lemma_event_consumes, lemma_event_error_within, lemma_event_extends, parse_event, spec_event,
};
use crate::parser::util::{
    be_u32, lemma_tag_matches, spec_be_u32, spec_tag, spec_take, tag, take, u32_be,
};
use crate::types::{Event, SpecEvent, Track};
use vstd::prelude::*;

verus! {

/// The tag of a track chunk, "MTrk".
pub open spec fn track_tag() -> Seq<u8> {
    seq![0x4Du8, 0x54u8, 0x72u8, 0x6Bu8]
}

/// Decoding the frame of a track chunk: its tag, its length, and that many bytes.
pub open spec fn spec_track_chunk_header(s: Seq<u8>) -> Result<(Seq<u8>, Seq<u8>), ParseError> {
    match spec_tag(s, track_tag()) {
        Err(e) => Err(e),
        Ok((s, _)) => match spec_be_u32(s) {
            Err(e) => Err(e),
            Ok((s, len)) => spec_take(s, len as nat),
        },
    }
}

/// Decodes the frame of a track chunk: the tag, a 32-bit big-endian length, then returns that
/// many bytes.
pub fn parse_track_chunk_header<'a>(i: &'a [u8]) -> (r: ParseResult<'a, &'a [u8]>)
    ensures
        result_view(r) == spec_track_chunk_header(i@),
{
    let magic: [u8; 4] = [0x4D, 0x54, 0x72, 0x6B];
    let (i, _) = tag(i, magic.as_slice())?;
    let (i, length) = be_u32(i)?;
    take(i, length as usize)
}

/// Decoding the events that fill `d` exactly, where `tail` bytes of the input follow `d`. An
/// event cut off by the end of `d` is malformed, reported where it starts: the chunk's length
/// says that no more bytes belong to it. The position of an error counts the bytes that
/// remain to the end of the input, `tail` included.
pub open spec fn spec_track_events(d: Seq<u8>, tail: nat) -> Result<Seq<SpecEvent>, ParseError>
    decreases d.len(),
{
    if d.len() == 0 {
        Ok(seq![])
    } else {
        match spec_event(d) {
            Err(ParseError::Incomplete(_)) => Err(
                ParseError::Malformed {
                    kind: ErrorKind::TruncatedEvent,
                    remaining: (d.len() + tail) as usize,
                },
            ),
            Err(ParseError::Malformed { kind, remaining }) => Err(
                ParseError::Malformed { kind, remaining: (remaining + tail) as usize },
            ),
            Ok((rest, ev)) => {
                proof {
                    lemma_event_consumes(d);
                }
                match spec_track_events(rest, tail) {
                    Err(e) => Err(e),
                    Ok(evs) => Ok(seq![ev] + evs),
                }
            },
        }
    }
}

/// Decoding a track chunk: its frame, then the events that fill it.
pub open spec fn spec_track_chunk(s: Seq<u8>) -> Result<(Seq<u8>, Seq<SpecEvent>), ParseError> {
    match spec_track_chunk_header(s) {
        Err(e) => Err(e),
        Ok((rest, d)) => match spec_track_events(d, rest.len()) {
            Err(e) => Err(e),
            Ok(evs) => Ok((rest, evs)),
        },
    }
}

/// A track chunk is framed by its declared length. Where the tag and the length are complete
/// and the length is longer than the bytes that follow, the chunk is incomplete, short by the
/// difference. A decoded chunk takes exactly its tag, its length and the declared number of
/// bytes, and leaves what follows. No event inside a chunk is ever incomplete: a chunk is
/// incomplete only where its frame is.
pub proof fn lemma_track_framing(s: Seq<u8>)
    ensures
        s.len() >= 8 && s.take(4) == track_tag() && u32_be(s.skip(4)) > s.len() - 8
            ==> spec_track_chunk(s) == Err::<(Seq<u8>, Seq<SpecEvent>), ParseError>(
            short_by(u32_be(s.skip(4)) - (s.len() - 8)),
        ),
        spec_track_chunk(s) matches Ok((rest, _)) ==> s.len() >= 8 && rest == s.skip(
            8 + u32_be(s.skip(4)),
        ),
        spec_track_chunk(s) matches Err(ParseError::Incomplete(_))
            ==> spec_track_chunk_header(s) is Err,
{
    if s.len() >= 8 && s.take(4) == track_tag() {
        lemma_tag_matches(s, track_tag());
        assert(s.skip(4).skip(4) =~= s.skip(8));
    }
    if let Ok((rest, d)) = spec_track_chunk_header(s) {
        lemma_events_never_incomplete(d, rest.len());
    }
    if let Ok((rest, _)) = spec_track_chunk(s) {
        assert(track_tag().len() == 4);
        assert(s.skip(4).skip(4) =~= s.skip(8));
        assert(s.skip(4).skip(4).skip(u32_be(s.skip(4)) as int) =~= s.skip(8 + u32_be(s.skip(4))));
    }
}

proof fn lemma_events_never_incomplete(d: Seq<u8>, tail: nat)
    ensures
        !(spec_track_events(d, tail) matches Err(ParseError::Incomplete(_))),
    decreases d.len(),
{
    if d.len() > 0 {
        if let Ok((rest, _)) = spec_event(d) {
            lemma_event_consumes(d);
            lemma_events_never_incomplete(rest, tail);
        }
    }
}

/// Complete events followed by one more complete event decode to the events and that one: so
/// events that fill a chunk's bytes exactly all decode, with no byte left over.
pub proof fn lemma_events_fill(a: Seq<u8>, b: Seq<u8>, tail: nat)
    requires
        spec_track_events(a, tail) is Ok,
        spec_event(b) matches Ok((r, _)) && r.len() == 0,
    ensures
        spec_track_events(a + b, tail) == Ok::<Seq<SpecEvent>, ParseError>(
            spec_track_events(a, tail)->Ok_0.push(spec_event(b)->Ok_0.1),
        ),
    decreases a.len(),
{
    let ev = spec_event(b)->Ok_0.1;
    if a.len() == 0 {
        let r = spec_event(b)->Ok_0.0;
        let none: Seq<SpecEvent> = seq![];
        assert(a + b =~= b);
        lemma_event_consumes(b);
        assert(spec_track_events(r, tail) == Ok::<Seq<SpecEvent>, ParseError>(none));
        assert(spec_track_events(b, tail) == Ok::<Seq<SpecEvent>, ParseError>(seq![ev] + none));
        assert(spec_track_events(a, tail) == Ok::<Seq<SpecEvent>, ParseError>(none));
        assert(seq![ev] + none =~= none.push(ev));
    } else {
        let (a1, e0) = spec_event(a)->Ok_0;
        lemma_event_consumes(a);
        lemma_event_extends(a, b);
        lemma_events_fill(a1, b, tail);
        assert(a1 + b == spec_event(a + b)->Ok_0.0);
        lemma_event_consumes(a + b);
        let evs = spec_track_events(a1, tail)->Ok_0;
        assert(seq![e0] + evs.push(ev) =~= (seq![e0] + evs).push(ev));
    }
}

/// Complete events followed by the start of an event that the chunk's end cuts short make the
/// chunk's bytes malformed, reported where the partial event starts: it is not dropped.
pub proof fn lemma_truncated_last_event(a: Seq<u8>, b: Seq<u8>, tail: nat)
    requires
        spec_track_events(a, tail) is Ok,
        b.len() > 0,
        spec_event(b) matches Err(ParseError::Incomplete(_)),
    ensures
        spec_track_events(a + b, tail) == Err::<Seq<SpecEvent>, ParseError>(
            ParseError::Malformed {
                kind: ErrorKind::TruncatedEvent,
                remaining: (b.len() + tail) as usize,
            },
        ),
    decreases a.len(),
{
    if a.len() == 0 {
        assert(a + b =~= b);
    } else {
        let (a1, e0) = spec_event(a)->Ok_0;
        lemma_event_consumes(a);
        lemma_event_extends(a, b);
        lemma_truncated_last_event(a1, b, tail);
        lemma_event_consumes(a + b);
    }
}

/// The events of `r`, after the events `done`.
spec fn after_events(done: Seq<SpecEvent>, r: Result<Seq<SpecEvent>, ParseError>) -> Result<
    Seq<SpecEvent>,
    ParseError,
> {
    match r {
        Err(e) => Err(e),
        Ok(evs) => Ok(done + evs),
    }
}

/// Decodes a track chunk: its frame, then events until its bytes are used up.
pub fn parse_track_chunk<'a>(i: &'a [u8]) -> (r: ParseResult<'a, Track<'a>>)
    ensures
        result_view(r) == spec_track_chunk(i@),
{
    let (rest, mut data) = parse_track_chunk_header(i)?;
    let ghost whole = data@;
    let mut events: Vec<Event<'a>> = Vec::new();
    while data.len() > 0
        invariant
            spec_track_chunk_header(i@) == Ok::<(Seq<u8>, Seq<u8>), ParseError>((rest@, whole)),
            data@.len() + rest@.len() <= i.len(),
            spec_track_events(whole, rest@.len()) == after_events(
                events@.map_values(|e: Event<'a>| e@),
                spec_track_events(data@, rest@.len()),
            ),
        decreases data.len(),
    {
        let (data_after, evt) = match parse_event(data) {
            Ok(x) => x,
            Err(ParseError::Incomplete(_)) => {
                return Err(
                    ParseError::Malformed {
                        kind: ErrorKind::TruncatedEvent,
                        remaining: data.len() + rest.len(),
                    },
                );
            },
            Err(ParseError::Malformed { kind, remaining }) => {
                proof {
                    lemma_event_error_within(data@);
                }
                return Err(ParseError::Malformed { kind, remaining: remaining + rest.len() });
            },
        };
        proof {
            lemma_event_consumes(data@);
            let done = events@.map_values(|e: Event<'a>| e@);
            assert(events@.push(evt).map_values(|e: Event<'a>| e@) =~= done.push(evt@));
            if let Ok(evs) = spec_track_events(data_after@, rest@.len()) {
                assert(done + (seq![evt@] + evs) =~= done.push(evt@) + evs);
            }
        }
        data = data_after;
        events.push(evt);
    }
    proof {
        assert(events@.map_values(|e: Event<'a>| e@) + seq![] =~= events@.map_values(
            |e: Event<'a>| e@,
        ));
    }
    Ok((rest, Track { events }))
}

} // verus!
