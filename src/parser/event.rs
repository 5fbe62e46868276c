//! Timed events: a delta-time, then one event of one of the four families.
use crate::error::{malformed, result_view, short_by, ErrorKind, Needed, ParseError, ParseResult};
use crate::parser::meta::{lemma_meta_event_extends, parse_meta_event, spec_meta_event};
use crate::parser::midi::{
    is_channel_status, lemma_midi_event_extends, parse_midi_event, spec_midi_event,
};
use crate::parser::sysex::{
    lemma_marked_block_extends, parse_escape_sequence, parse_sysex_message, spec_marked_block,
};
use crate::parser::util::{
    lemma_var_length_consumes, lemma_var_length_error_at, lemma_var_length_extends,
    parse_var_length, spec_var_length,
};
use crate::types::{Event, EventType, SpecEvent, SpecEventType};
use vstd::prelude::*;

verus! {

/// Decoding the event that follows a delta-time; its first byte selects the family: a
/// channel-voice status (0x80 to 0xEF), 0xF0 for a system-exclusive message, 0xF7 for an
/// escape sequence, 0xFF for a meta event.
pub open spec fn spec_event_body(s: Seq<u8>) -> Result<(Seq<u8>, SpecEventType), ParseError> {
    if s.len() == 0 {
        Err(short_by(1))
    } else if is_channel_status(s[0]) {
        match spec_midi_event(s) {
            Err(e) => Err(e),
            Ok((s, m)) => Ok((s, SpecEventType::Midi(m))),
        }
    } else if s[0] == 0xF0 {
        match spec_marked_block(s, 0xF0) {
            Err(e) => Err(e),
            Ok((s, d)) => Ok((s, SpecEventType::SystemExclusive(d))),
        }
    } else if s[0] == 0xF7 {
        match spec_marked_block(s, 0xF7) {
            Err(e) => Err(e),
            Ok((s, d)) => Ok((s, SpecEventType::EscapeSequence(d))),
        }
    } else if s[0] == 0xFF {
        match spec_meta_event(s) {
            Err(e) => Err(e),
            Ok((s, m)) => Ok((s, SpecEventType::Meta(m))),
        }
    } else {
        Err(malformed(ErrorKind::UnknownStatus, s))
    }
}

/// Decoding a timed event: a delta-time as a variable-length quantity, then the event.
pub open spec fn spec_event(s: Seq<u8>) -> Result<(Seq<u8>, SpecEvent), ParseError> {
    match spec_var_length(s) {
        Err(e) => Err(e),
        Ok((s, delta_time)) => match spec_event_body(s) {
            Err(e) => Err(e),
            Ok((s, event)) => Ok((s, SpecEvent { delta_time, event })),
        },
    }
}

/// An event takes at least one byte.
pub proof fn lemma_event_consumes(s: Seq<u8>)
    ensures
        spec_event(s) matches Ok((rest, _)) ==> rest.len() < s.len(),
{
    lemma_var_length_consumes(s);
    if let Ok((s1, _)) = spec_var_length(s) {
        if s1.len() > 0 {
            lemma_var_length_consumes(s1.skip(1));
            lemma_var_length_consumes(s1.skip(1).skip(1));
        }
    }
}

/// A malformed event is reported at a position inside it.
pub proof fn lemma_event_error_within(s: Seq<u8>)
    requires
        s.len() <= usize::MAX,
    ensures
        spec_event(s) matches Err(ParseError::Malformed { remaining, .. }) ==> remaining <= s.len(),
{
    lemma_var_length_error_at(s);
    if let Ok((s1, _)) = spec_var_length(s) {
        lemma_var_length_consumes(s);
        if s1.len() > 0 {
            lemma_var_length_error_at(s1.skip(1));
            lemma_var_length_error_at(s1.skip(1).skip(1));
        }
    }
}

/// Bytes after a complete event change neither the event nor how much of the input it takes.
pub proof fn lemma_event_extends(s: Seq<u8>, t: Seq<u8>)
    ensures
        spec_event(s) matches Ok((r, v)) ==> spec_event(s + t) == Ok::<(Seq<u8>, SpecEvent), ParseError>((r + t, v)),
{
    lemma_var_length_extends(s, t);
    if let Ok((s1, _)) = spec_var_length(s) {
        if s1.len() > 0 {
            assert((s1 + t)[0] == s1[0]);
            lemma_midi_event_extends(s1, t);
            lemma_marked_block_extends(s1, t, 0xF0);
            lemma_marked_block_extends(s1, t, 0xF7);
            lemma_meta_event_extends(s1, t);
        }
    }
}

/// Decodes a timed event: a delta-time, then exactly one event of the family that the next
/// byte selects.
pub fn parse_event<'a>(i: &'a [u8]) -> (r: ParseResult<'a, Event<'a>>)
    ensures
        result_view(r) == spec_event(i@),
{
    let (i, delta_time) = parse_var_length(i)?;
    if i.len() == 0 {
        return Err(ParseError::Incomplete(Needed::Size(1)));
    }
    let lead = i[0];
    let (i, event) = if 0x80 <= lead && lead < 0xF0 {
        let (i, m) = parse_midi_event(i)?;
        (i, EventType::Midi(m))
    } else if lead == 0xF0 {
        let (i, x) = parse_sysex_message(i)?;
        (i, EventType::SystemExclusive(x))
    } else if lead == 0xF7 {
        let (i, x) = parse_escape_sequence(i)?;
        (i, EventType::EscapeSequence(x))
    } else if lead == 0xFF {
        let (i, m) = parse_meta_event(i)?;
        (i, EventType::Meta(m))
    } else {
        return Err(ParseError::Malformed { kind: ErrorKind::UnknownStatus, remaining: i.len() });
    };
    Ok((i, Event { delta_time, event }))
}

} // verus!
