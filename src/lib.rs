//! A decoder for Standard MIDI Files.
//!
//! Every decoder is a function from an input byte slice to either the rest of the input and a
//! value, or a [`ParseError`] that tells a truncated input ([`ParseError::Incomplete`]) apart
//! from a malformed one ([`ParseError::Malformed`]). Opaque payloads (text, system-exclusive
//! data) borrow from the input; numeric and enumerated fields are decoded into typed values.
//!
//! Each decoder's contract states its result as a spec function of the input bytes.
pub mod error;
pub mod note;
pub mod parser;
pub mod types;

pub use error::{ErrorKind, Needed, ParseError, ParseResult};
pub use note::Note;
pub use parser::event::parse_event;
pub use parser::header::{parse_division, parse_format, parse_header_chunk};
pub use parser::meta::{parse_meta_event, parse_to_key};
pub use parser::midi::parse_midi_event;
pub use parser::parse_midi;
pub use parser::sysex::{parse_escape_sequence, parse_sysex_message};
pub use parser::track::{parse_track_chunk, parse_track_chunk_header};
pub use parser::util::{be_u7, parse_var_length, parse_var_length_bytes};
pub use types::{
    Division, EscapeSequence, Event, EventType, Fps, KeySignature, MetaEvent, MidiEvent,
    MidiEventType, MidiFormat, MidiHeader, SMPTEOffset, SimpleMidiFile, SystemExclusiveEvent,
    TimeSignature, Track,
};
