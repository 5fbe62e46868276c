//! The decoded structure of a MIDI file, and its mathematical model.
//!
//! Opaque payloads (text, system-exclusive data) borrow from the decoded input, so a decoded
//! value lives no longer than the input buffer. Each type that holds such a payload has a view
//! in which the payload is a `Seq<u8>`.
use crate::note::Note;
use vstd::prelude::*;

verus! {

/// A whole file: its header and its tracks.
#[derive(Debug, PartialEq, Clone)]
pub struct SimpleMidiFile<'src> {
    pub header: MidiHeader,
    pub tracks: Vec<Track<'src>>,
}

// header
// ======

/// The header chunk of a file.
#[derive(Debug, PartialEq, Eq, Copy, Clone, Structural)]
pub struct MidiHeader {
    /// The format of the file.
    pub format: MidiFormat,
    /// The way time is divided.
    pub division: Division,
}

/// The format of a file; the parameter is the number of tracks.
#[derive(Debug, PartialEq, Eq, Copy, Clone, Structural)]
pub enum MidiFormat {
    /// A single track.
    SingleTrack,
    /// Several tracks, played at the same time.
    MultipleTrack(u16),
    /// Several independent sequences, played in any order or combination.
    MultipleSong(u16),
}

impl MidiFormat {
    /// The number of tracks.
    pub open spec fn spec_count(self) -> u16 {
        match self {
            MidiFormat::SingleTrack => 1,
            MidiFormat::MultipleTrack(n) => n,
            MidiFormat::MultipleSong(n) => n,
        }
    }

    /// How many tracks the format declares.
    pub fn count(&self) -> (r: u16)
        ensures
            r == self.spec_count(),
    {
        match *self {
            MidiFormat::SingleTrack => 1,
            MidiFormat::MultipleTrack(n) => n,
            MidiFormat::MultipleSong(n) => n,
        }
    }
}

/// The way time is divided in the file's tracks.
#[derive(Debug, PartialEq, Eq, Copy, Clone, Structural)]
pub enum Division {
    /// The number of ticks in a quarter note (15 bits). For example, 96 = 2^5 * 3 allows
    /// dotted notes down to hemidemisemiquavers.
    Metrical(u16),
    /// Absolute time, as frames per second and ticks per frame.
    Timecode {
        /// The number of frames per second.
        fps: Fps,
        /// The sub-frame resolution: typically 4 (MIDI Time Code), 8, 10, 80 (SMPTE bit
        /// resolution) or 100.
        res: u8,
    },
}

/// The four frame rates of a timecode.
#[derive(Debug, PartialEq, Eq, Copy, Clone, Structural)]
pub enum Fps {
    /// 24 frames per second.
    TwentyFour,
    /// 25 frames per second.
    TwentyFive,
    /// 29.97 frames per second (drop frame), written 29.
    TwentyNine,
    /// 30 frames per second.
    Thirty,
}

impl Fps {
    /// The number of frames per second.
    pub open spec fn spec_frames(self) -> u8 {
        match self {
            Fps::TwentyFour => 24,
            Fps::TwentyFive => 25,
            Fps::TwentyNine => 29,
            Fps::Thirty => 30,
        }
    }
}

impl From<Fps> for u8 {
    /// The number of frames per second.
    fn from(f: Fps) -> (r: u8) {
        match f {
            Fps::TwentyFour => 24,
            Fps::TwentyFive => 25,
            Fps::TwentyNine => 29,
            Fps::Thirty => 30,
        }
    }
}

impl vstd::std_specs::convert::FromSpecImpl<Fps> for u8 {
    open spec fn obeys_from_spec() -> bool {
        true
    }

    open spec fn from_spec(f: Fps) -> u8 {
        f.spec_frames()
    }
}

// Track
// =====

/// A track chunk: a sequence of events.
#[derive(Debug, PartialEq, Clone)]
pub struct Track<'src> {
    pub events: Vec<Event<'src>>,
}

// Events
// ======

/// An event of a track, with the time since the previous event.
#[derive(Debug, PartialEq, Clone)]
pub struct Event<'src> {
    /// Ticks since the previous event of the track, or since its start.
    pub delta_time: u32,
    pub event: EventType<'src>,
}

/// The kind of an event, with its data.
#[derive(Debug, PartialEq, Clone)]
pub enum EventType<'src> {
    Midi(MidiEvent),
    SystemExclusive(SystemExclusiveEvent<'src>),
    EscapeSequence(EscapeSequence<'src>),
    Meta(MetaEvent<'src>),
}

// Midi Events
// ===========

/// A channel-voice event, with the channel it applies to.
#[derive(Debug, PartialEq, Eq, Copy, Clone, Structural)]
pub struct MidiEvent {
    /// The channel, 0 to 15.
    pub channel: u8,
    pub event: MidiEventType,
}

/// A channel-voice event: starting and stopping sound, and changing how it sounds. Every
/// number in it is a 7-bit value.
#[derive(Debug, PartialEq, Eq, Copy, Clone, Structural)]
pub enum MidiEventType {
    /// Stop sounding a note, with a release velocity.
    NoteOff(Note, u8),
    /// Start sounding a note, with an attack velocity.
    NoteOn(Note, u8),
    /// Aftertouch on one note, with its amount.
    PolyphonicPressure(Note, u8),
    /// Set a controller (first) to a value (second).
    Controller(u8, u8),
    /// Select a program.
    ProgramChange(u8),
    /// Aftertouch on all notes of the channel.
    ChannelPressure(u8),
    /// Bend the pitch of all notes: the less significant 7 bits, then the more significant.
    /// `0x00 0x40` means no bend.
    PitchBend(u8, u8),
}

// SysEx Events
// ============

/// A system-exclusive message; its bytes are not interpreted.
#[derive(Debug, PartialEq, Clone)]
pub struct SystemExclusiveEvent<'src>(pub &'src [u8]);

/// An escape sequence: bytes that no other event can carry.
#[derive(Debug, PartialEq, Clone)]
pub struct EscapeSequence<'src>(pub &'src [u8]);

// Meta Events
// ===========

/// An event that makes no sound: text, tempo, signatures and the like.
#[derive(Debug, PartialEq, Clone)]
pub enum MetaEvent<'src> {
    /// The sequence number, as a MIDI Cue message uses it.
    SequenceNumber(u16),
    /// Free text.
    Text(&'src [u8]),
    /// A copyright notice.
    Copyright(&'src [u8]),
    /// The name of the sequence or of the track.
    SequenceOrTrackName(&'src [u8]),
    /// The name of the instrument of the track.
    InstrumentName(&'src [u8]),
    /// A syllable or syllables to be sung.
    Lyric(&'src [u8]),
    /// A point in the music, such as a rehearsal mark or a section name.
    Marker(&'src [u8]),
    /// A point to synchronize with something outside the music.
    CuePoint(&'src [u8]),
    /// The name of the program that the next bank select and program change choose.
    ProgramName(&'src [u8]),
    /// The name of the device that plays the track.
    DeviceName(&'src [u8]),
    /// The channel (4 bits) that later system-exclusive and meta events apply to.
    MidiChannelPrefix(u8),
    /// The port (7 bits) that later events apply to.
    MidiPort(u8),
    /// The end of the track.
    EndOfTrack,
    /// Microseconds per quarter note (24 bits).
    Tempo(u32),
    /// The time at which the track starts.
    SMPTEOffset(SMPTEOffset),
    /// The time signature; `4/4` until one is given.
    TimeSignature(TimeSignature),
    /// The key signature; C major until one is given.
    KeySignature(KeySignature),
    /// Data for a particular sequencer, not interpreted.
    SequencerSpecificEvent(&'src [u8]),
    /// A meta event of an unknown kind, with its code and data.
    Unknown(u8, &'src [u8]),
}

/// The time at which a track starts.
#[derive(Debug, PartialEq, Eq, Copy, Clone, Structural)]
pub struct SMPTEOffset {
    pub fps: Fps,
    /// 0 to 23.
    pub hour: u8,
    /// 0 to 59.
    pub minute: u8,
    /// 0 to 59.
    pub second: u8,
    /// Below the frame rate.
    pub no_frames: u8,
    /// Hundredths of a frame.
    pub no_fractional_frames: u8,
}

/// A time signature. With `number_32nd_in_quarter` = 8, a 4/4 bar with a click on each
/// quarter note is `4, 2, 24, 8`: 24 MIDI clocks make a quarter note.
#[derive(Debug, PartialEq, Eq, Copy, Clone, Structural)]
pub struct TimeSignature {
    /// Beats in a bar.
    pub top: u8,
    /// The length of a beat, as a negative power of 2 (2 is a quarter note, 3 an eighth).
    pub bottom: u8,
    /// MIDI clocks between metronome clicks.
    pub ticks_per_metronome_click: u8,
    /// Notated 32nd notes in a MIDI quarter note; 8 for a one-to-one correspondence.
    pub number_32nd_in_quarter: u8,
}

/// The 30 key signatures.
#[derive(Debug, PartialEq, Eq, Copy, Clone, Structural)]
pub enum KeySignature {
    CMajor,
    // sharps
    GMajor,
    DMajor,
    AMajor,
    EMajor,
    BMajor,
    FSharpMajor,
    CSharpMajor,
    // flats
    FMajor,
    BFlatMajor,
    EFlatMajor,
    AFlatMajor,
    DFlatMajor,
    GFlatMajor,
    CFlatMajor,
    // minor
    AMinor,
    // sharps
    EMinor,
    BMinor,
    FSharpMinor,
    CSharpMinor,
    GSharpMinor,
    DSharpMinor,
    ASharpMinor,
    // flats
    DMinor,
    GMinor,
    CMinor,
    FMinor,
    BFlatMinor,
    EFlatMinor,
    AFlatMinor,
}

impl KeySignature {
    /// The number of sharps, or minus the number of flats.
    pub open spec fn spec_sharps(self) -> int {
        match self {
            KeySignature::CMajor | KeySignature::AMinor => 0,
            KeySignature::GMajor | KeySignature::EMinor => 1,
            KeySignature::DMajor | KeySignature::BMinor => 2,
            KeySignature::AMajor | KeySignature::FSharpMinor => 3,
            KeySignature::EMajor | KeySignature::CSharpMinor => 4,
            KeySignature::BMajor | KeySignature::GSharpMinor => 5,
            KeySignature::FSharpMajor | KeySignature::DSharpMinor => 6,
            KeySignature::CSharpMajor | KeySignature::ASharpMinor => 7,
            KeySignature::FMajor | KeySignature::DMinor => -1,
            KeySignature::BFlatMajor | KeySignature::GMinor => -2,
            KeySignature::EFlatMajor | KeySignature::CMinor => -3,
            KeySignature::AFlatMajor | KeySignature::FMinor => -4,
            KeySignature::DFlatMajor | KeySignature::BFlatMinor => -5,
            KeySignature::GFlatMajor | KeySignature::EFlatMinor => -6,
            KeySignature::CFlatMajor | KeySignature::AFlatMinor => -7,
        }
    }

    /// Whether the key is minor.
    pub open spec fn spec_minor(self) -> bool {
        match self {
            KeySignature::AMinor | KeySignature::EMinor | KeySignature::BMinor
            | KeySignature::FSharpMinor | KeySignature::CSharpMinor | KeySignature::GSharpMinor
            | KeySignature::DSharpMinor | KeySignature::ASharpMinor | KeySignature::DMinor
            | KeySignature::GMinor | KeySignature::CMinor | KeySignature::FMinor
            | KeySignature::BFlatMinor | KeySignature::EFlatMinor | KeySignature::AFlatMinor => true,
            _ => false,
        }
    }

    /// The number of sharps or flats.
    pub open spec fn spec_count(self) -> int {
        if self.spec_sharps() < 0 {
            -self.spec_sharps()
        } else {
            self.spec_sharps()
        }
    }

    /// Counts the sharps or flats.
    pub fn count(&self) -> (r: u8)
        ensures
            r == self.spec_count(),
    {
        match *self {
            KeySignature::CMajor | KeySignature::AMinor => 0,
            KeySignature::GMajor | KeySignature::FMajor | KeySignature::EMinor
            | KeySignature::DMinor => 1,
            KeySignature::DMajor | KeySignature::BFlatMajor | KeySignature::BMinor
            | KeySignature::GMinor => 2,
            KeySignature::AMajor | KeySignature::EFlatMajor | KeySignature::FSharpMinor
            | KeySignature::CMinor => 3,
            KeySignature::EMajor | KeySignature::AFlatMajor | KeySignature::CSharpMinor
            | KeySignature::FMinor => 4,
            KeySignature::BMajor | KeySignature::DFlatMajor | KeySignature::GSharpMinor
            | KeySignature::BFlatMinor => 5,
            KeySignature::FSharpMajor | KeySignature::GFlatMajor | KeySignature::DSharpMinor
            | KeySignature::EFlatMinor => 6,
            KeySignature::CSharpMajor | KeySignature::CFlatMajor | KeySignature::ASharpMinor
            | KeySignature::AFlatMinor => 7,
        }
    }

    /// Whether the key has sharps; false for the keys without sharps or flats.
    fn is_sharps_unchecked(&self) -> (r: bool)
        ensures
            r == (self.spec_sharps() > 0),
    {
        match *self {
            KeySignature::GMajor | KeySignature::DMajor | KeySignature::AMajor
            | KeySignature::EMajor | KeySignature::BMajor | KeySignature::FSharpMajor
            | KeySignature::CSharpMajor | KeySignature::EMinor | KeySignature::BMinor
            | KeySignature::FSharpMinor | KeySignature::CSharpMinor | KeySignature::GSharpMinor
            | KeySignature::DSharpMinor | KeySignature::ASharpMinor => true,
            _ => false,
        }
    }

    /// Whether the key has sharps (true) or flats (false). A key without either has no answer:
    /// check `count` first.
    pub fn is_sharps(&self) -> (r: bool)
        requires
            self.spec_count() != 0,
        ensures
            r == (self.spec_sharps() > 0),
    {
        self.is_sharps_unchecked()
    }

    /// The number of sharps or flats, and whether they are sharps. The second value means
    /// nothing when the first is 0.
    pub fn for_display(&self) -> (r: (u8, bool))
        ensures
            r.0 == self.spec_count(),
            r.0 != 0 ==> r.1 == (self.spec_sharps() > 0),
    {
        (self.count(), self.is_sharps_unchecked())
    }
}

// The model
// =========

impl View for MidiHeader {
    type V = MidiHeader;

    open spec fn view(&self) -> MidiHeader {
        *self
    }
}

impl View for MidiFormat {
    type V = MidiFormat;

    open spec fn view(&self) -> MidiFormat {
        *self
    }
}

impl View for Division {
    type V = Division;

    open spec fn view(&self) -> Division {
        *self
    }
}

impl View for MidiEvent {
    type V = MidiEvent;

    open spec fn view(&self) -> MidiEvent {
        *self
    }
}

impl<'src> View for SystemExclusiveEvent<'src> {
    type V = Seq<u8>;

    open spec fn view(&self) -> Seq<u8> {
        self.0@
    }
}

impl<'src> View for EscapeSequence<'src> {
    type V = Seq<u8>;

    open spec fn view(&self) -> Seq<u8> {
        self.0@
    }
}

/// A meta event with its payloads as sequences of bytes.
pub enum SpecMetaEvent {
    SequenceNumber(u16),
    Text(Seq<u8>),
    Copyright(Seq<u8>),
    SequenceOrTrackName(Seq<u8>),
    InstrumentName(Seq<u8>),
    Lyric(Seq<u8>),
    Marker(Seq<u8>),
    CuePoint(Seq<u8>),
    ProgramName(Seq<u8>),
    DeviceName(Seq<u8>),
    MidiChannelPrefix(u8),
    MidiPort(u8),
    EndOfTrack,
    Tempo(u32),
    SMPTEOffset(SMPTEOffset),
    TimeSignature(TimeSignature),
    KeySignature(KeySignature),
    SequencerSpecificEvent(Seq<u8>),
    Unknown(u8, Seq<u8>),
}

impl<'src> View for MetaEvent<'src> {
    type V = SpecMetaEvent;

    open spec fn view(&self) -> SpecMetaEvent {
        match *self {
            MetaEvent::SequenceNumber(n) => SpecMetaEvent::SequenceNumber(n),
            MetaEvent::Text(d) => SpecMetaEvent::Text(d@),
            MetaEvent::Copyright(d) => SpecMetaEvent::Copyright(d@),
            MetaEvent::SequenceOrTrackName(d) => SpecMetaEvent::SequenceOrTrackName(d@),
            MetaEvent::InstrumentName(d) => SpecMetaEvent::InstrumentName(d@),
            MetaEvent::Lyric(d) => SpecMetaEvent::Lyric(d@),
            MetaEvent::Marker(d) => SpecMetaEvent::Marker(d@),
            MetaEvent::CuePoint(d) => SpecMetaEvent::CuePoint(d@),
            MetaEvent::ProgramName(d) => SpecMetaEvent::ProgramName(d@),
            MetaEvent::DeviceName(d) => SpecMetaEvent::DeviceName(d@),
            MetaEvent::MidiChannelPrefix(c) => SpecMetaEvent::MidiChannelPrefix(c),
            MetaEvent::MidiPort(p) => SpecMetaEvent::MidiPort(p),
            MetaEvent::EndOfTrack => SpecMetaEvent::EndOfTrack,
            MetaEvent::Tempo(t) => SpecMetaEvent::Tempo(t),
            MetaEvent::SMPTEOffset(o) => SpecMetaEvent::SMPTEOffset(o),
            MetaEvent::TimeSignature(t) => SpecMetaEvent::TimeSignature(t),
            MetaEvent::KeySignature(k) => SpecMetaEvent::KeySignature(k),
            MetaEvent::SequencerSpecificEvent(d) => SpecMetaEvent::SequencerSpecificEvent(d@),
            MetaEvent::Unknown(c, d) => SpecMetaEvent::Unknown(c, d@),
        }
    }
}

/// The kind of an event with its payloads as sequences of bytes.
pub enum SpecEventType {
    Midi(MidiEvent),
    SystemExclusive(Seq<u8>),
    EscapeSequence(Seq<u8>),
    Meta(SpecMetaEvent),
}

impl<'src> View for EventType<'src> {
    type V = SpecEventType;

    open spec fn view(&self) -> SpecEventType {
        match *self {
            EventType::Midi(m) => SpecEventType::Midi(m),
            EventType::SystemExclusive(x) => SpecEventType::SystemExclusive(x@),
            EventType::EscapeSequence(x) => SpecEventType::EscapeSequence(x@),
            EventType::Meta(m) => SpecEventType::Meta(m@),
        }
    }
}

/// An event with its payloads as sequences of bytes.
pub struct SpecEvent {
    pub delta_time: u32,
    pub event: SpecEventType,
}

impl<'src> View for Event<'src> {
    type V = SpecEvent;

    open spec fn view(&self) -> SpecEvent {
        SpecEvent { delta_time: self.delta_time, event: self.event@ }
    }
}

impl<'src> View for Track<'src> {
    type V = Seq<SpecEvent>;

    open spec fn view(&self) -> Seq<SpecEvent> {
        self.events@.map_values(|e: Event<'src>| e@)
    }
}

/// A file with its tracks as sequences of events.
pub struct SpecMidiFile {
    pub header: MidiHeader,
    pub tracks: Seq<Seq<SpecEvent>>,
}

impl<'src> View for SimpleMidiFile<'src> {
    type V = SpecMidiFile;

    open spec fn view(&self) -> SpecMidiFile {
        SpecMidiFile { header: self.header, tracks: self.tracks@.map_values(|t: Track<'src>| t@) }
    }
}

} // verus!
