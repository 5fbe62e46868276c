//! The 128 pitches of a 7-bit note number.
use crate::error::ErrorKind;
use vstd::prelude::*;

verus! {

/// A note that a 7-bit unsigned number can hold, from C in octave -1 (0) to G in octave 9
/// (127). An `s` after the letter means sharp; an `n` after the octave means that the octave
/// is negative, so `Cs1n` is C sharp in octave -1.
///
/// A note converts to `u8` and `i8` and back; the conversion back fails on a number above 127
/// or below 0.
#[derive(Debug, PartialEq, Eq, Copy, Clone, Structural)]
pub enum Note {
    C1n,
    Cs1n,
    D1n,
    Ds1n,
    E1n,
    F1n,
    Fs1n,
    G1n,
    Gs1n,
    A1n,
    As1n,
    B1n,
    C0,
    Cs0,
    D0,
    Ds0,
    E0,
    F0,
    Fs0,
    G0,
    Gs0,
    /// Lowest key of an 88-key piano.
    A0,
    As0,
    B0,
    C1,
    Cs1,
    D1,
    Ds1,
    E1,
    F1,
    Fs1,
    G1,
    Gs1,
    A1,
    As1,
    B1,
    /// Lowest key of a five-octave synthesizer keyboard.
    C2,
    Cs2,
    D2,
    Ds2,
    E2,
    F2,
    Fs2,
    G2,
    Gs2,
    A2,
    As2,
    B2,
    C3,
    Cs3,
    D3,
    Ds3,
    E3,
    F3,
    Fs3,
    G3,
    Gs3,
    A3,
    As3,
    B3,
    /// Middle C.
    C4,
    Cs4,
    D4,
    Ds4,
    E4,
    F4,
    Fs4,
    G4,
    Gs4,
    A4,
    As4,
    B4,
    C5,
    Cs5,
    D5,
    Ds5,
    E5,
    F5,
    Fs5,
    G5,
    Gs5,
    A5,
    As5,
    B5,
    C6,
    Cs6,
    D6,
    Ds6,
    E6,
    F6,
    Fs6,
    G6,
    Gs6,
    A6,
    As6,
    B6,
    /// Highest key of a five-octave synthesizer keyboard.
    C7,
    Cs7,
    D7,
    Ds7,
    E7,
    F7,
    Fs7,
    G7,
    Gs7,
    A7,
    As7,
    B7,
    /// Highest key of an 88-key piano.
    C8,
    Cs8,
    D8,
    Ds8,
    E8,
    F8,
    Fs8,
    G8,
    Gs8,
    A8,
    As8,
    B8,
    C9,
    Cs9,
    D9,
    Ds9,
    E9,
    F9,
    Fs9,
    G9,
}

impl Note {
    /// The note's number, 0 to 127.
    pub open spec fn spec_number(self) -> u8 {
        match self {
            Note::C1n => 0,
            Note::Cs1n => 1,
            Note::D1n => 2,
            Note::Ds1n => 3,
            Note::E1n => 4,
            Note::F1n => 5,
            Note::Fs1n => 6,
            Note::G1n => 7,
            Note::Gs1n => 8,
            Note::A1n => 9,
            Note::As1n => 10,
            Note::B1n => 11,
            Note::C0 => 12,
            Note::Cs0 => 13,
            Note::D0 => 14,
            Note::Ds0 => 15,
            Note::E0 => 16,
            Note::F0 => 17,
            Note::Fs0 => 18,
            Note::G0 => 19,
            Note::Gs0 => 20,
            Note::A0 => 21,
            Note::As0 => 22,
            Note::B0 => 23,
            Note::C1 => 24,
            Note::Cs1 => 25,
            Note::D1 => 26,
            Note::Ds1 => 27,
            Note::E1 => 28,
            Note::F1 => 29,
            Note::Fs1 => 30,
            Note::G1 => 31,
            Note::Gs1 => 32,
            Note::A1 => 33,
            Note::As1 => 34,
            Note::B1 => 35,
            Note::C2 => 36,
            Note::Cs2 => 37,
            Note::D2 => 38,
            Note::Ds2 => 39,
            Note::E2 => 40,
            Note::F2 => 41,
            Note::Fs2 => 42,
            Note::G2 => 43,
            Note::Gs2 => 44,
            Note::A2 => 45,
            Note::As2 => 46,
            Note::B2 => 47,
            Note::C3 => 48,
            Note::Cs3 => 49,
            Note::D3 => 50,
            Note::Ds3 => 51,
            Note::E3 => 52,
            Note::F3 => 53,
            Note::Fs3 => 54,
            Note::G3 => 55,
            Note::Gs3 => 56,
            Note::A3 => 57,
            Note::As3 => 58,
            Note::B3 => 59,
            Note::C4 => 60,
            Note::Cs4 => 61,
            Note::D4 => 62,
            Note::Ds4 => 63,
            Note::E4 => 64,
            Note::F4 => 65,
            Note::Fs4 => 66,
            Note::G4 => 67,
            Note::Gs4 => 68,
            Note::A4 => 69,
            Note::As4 => 70,
            Note::B4 => 71,
            Note::C5 => 72,
            Note::Cs5 => 73,
            Note::D5 => 74,
            Note::Ds5 => 75,
            Note::E5 => 76,
            Note::F5 => 77,
            Note::Fs5 => 78,
            Note::G5 => 79,
            Note::Gs5 => 80,
            Note::A5 => 81,
            Note::As5 => 82,
            Note::B5 => 83,
            Note::C6 => 84,
            Note::Cs6 => 85,
            Note::D6 => 86,
            Note::Ds6 => 87,
            Note::E6 => 88,
            Note::F6 => 89,
            Note::Fs6 => 90,
            Note::G6 => 91,
            Note::Gs6 => 92,
            Note::A6 => 93,
            Note::As6 => 94,
            Note::B6 => 95,
            Note::C7 => 96,
            Note::Cs7 => 97,
            Note::D7 => 98,
            Note::Ds7 => 99,
            Note::E7 => 100,
            Note::F7 => 101,
            Note::Fs7 => 102,
            Note::G7 => 103,
            Note::Gs7 => 104,
            Note::A7 => 105,
            Note::As7 => 106,
            Note::B7 => 107,
            Note::C8 => 108,
            Note::Cs8 => 109,
            Note::D8 => 110,
            Note::Ds8 => 111,
            Note::E8 => 112,
            Note::F8 => 113,
            Note::Fs8 => 114,
            Note::G8 => 115,
            Note::Gs8 => 116,
            Note::A8 => 117,
            Note::As8 => 118,
            Note::B8 => 119,
            Note::C9 => 120,
            Note::Cs9 => 121,
            Note::D9 => 122,
            Note::Ds9 => 123,
            Note::E9 => 124,
            Note::F9 => 125,
            Note::Fs9 => 126,
            Note::G9 => 127,
        }
    }

    /// The note's number, 0 to 127.
    pub fn number(self) -> (r: u8)
        ensures
            r == self.spec_number(),
            r < 128,
    {
        match self {
            Note::C1n => 0,
            Note::Cs1n => 1,
            Note::D1n => 2,
            Note::Ds1n => 3,
            Note::E1n => 4,
            Note::F1n => 5,
            Note::Fs1n => 6,
            Note::G1n => 7,
            Note::Gs1n => 8,
            Note::A1n => 9,
            Note::As1n => 10,
            Note::B1n => 11,
            Note::C0 => 12,
            Note::Cs0 => 13,
            Note::D0 => 14,
            Note::Ds0 => 15,
            Note::E0 => 16,
            Note::F0 => 17,
            Note::Fs0 => 18,
            Note::G0 => 19,
            Note::Gs0 => 20,
            Note::A0 => 21,
            Note::As0 => 22,
            Note::B0 => 23,
            Note::C1 => 24,
            Note::Cs1 => 25,
            Note::D1 => 26,
            Note::Ds1 => 27,
            Note::E1 => 28,
            Note::F1 => 29,
            Note::Fs1 => 30,
            Note::G1 => 31,
            Note::Gs1 => 32,
            Note::A1 => 33,
            Note::As1 => 34,
            Note::B1 => 35,
            Note::C2 => 36,
            Note::Cs2 => 37,
            Note::D2 => 38,
            Note::Ds2 => 39,
            Note::E2 => 40,
            Note::F2 => 41,
            Note::Fs2 => 42,
            Note::G2 => 43,
            Note::Gs2 => 44,
            Note::A2 => 45,
            Note::As2 => 46,
            Note::B2 => 47,
            Note::C3 => 48,
            Note::Cs3 => 49,
            Note::D3 => 50,
            Note::Ds3 => 51,
            Note::E3 => 52,
            Note::F3 => 53,
            Note::Fs3 => 54,
            Note::G3 => 55,
            Note::Gs3 => 56,
            Note::A3 => 57,
            Note::As3 => 58,
            Note::B3 => 59,
            Note::C4 => 60,
            Note::Cs4 => 61,
            Note::D4 => 62,
            Note::Ds4 => 63,
            Note::E4 => 64,
            Note::F4 => 65,
            Note::Fs4 => 66,
            Note::G4 => 67,
            Note::Gs4 => 68,
            Note::A4 => 69,
            Note::As4 => 70,
            Note::B4 => 71,
            Note::C5 => 72,
            Note::Cs5 => 73,
            Note::D5 => 74,
            Note::Ds5 => 75,
            Note::E5 => 76,
            Note::F5 => 77,
            Note::Fs5 => 78,
            Note::G5 => 79,
            Note::Gs5 => 80,
            Note::A5 => 81,
            Note::As5 => 82,
            Note::B5 => 83,
            Note::C6 => 84,
            Note::Cs6 => 85,
            Note::D6 => 86,
            Note::Ds6 => 87,
            Note::E6 => 88,
            Note::F6 => 89,
            Note::Fs6 => 90,
            Note::G6 => 91,
            Note::Gs6 => 92,
            Note::A6 => 93,
            Note::As6 => 94,
            Note::B6 => 95,
            Note::C7 => 96,
            Note::Cs7 => 97,
            Note::D7 => 98,
            Note::Ds7 => 99,
            Note::E7 => 100,
            Note::F7 => 101,
            Note::Fs7 => 102,
            Note::G7 => 103,
            Note::Gs7 => 104,
            Note::A7 => 105,
            Note::As7 => 106,
            Note::B7 => 107,
            Note::C8 => 108,
            Note::Cs8 => 109,
            Note::D8 => 110,
            Note::Ds8 => 111,
            Note::E8 => 112,
            Note::F8 => 113,
            Note::Fs8 => 114,
            Note::G8 => 115,
            Note::Gs8 => 116,
            Note::A8 => 117,
            Note::As8 => 118,
            Note::B8 => 119,
            Note::C9 => 120,
            Note::Cs9 => 121,
            Note::D9 => 122,
            Note::Ds9 => 123,
            Note::E9 => 124,
            Note::F9 => 125,
            Note::Fs9 => 126,
            Note::G9 => 127,
        }
    }

    /// The note with number `n`, which must have its high bit clear.
    pub fn from_u7(n: u8) -> (r: Note)
        requires
            n < 128,
        ensures
            r.spec_number() == n,
            r == note_of(n),
    {
        let r = match n {
            0 => Note::C1n,
            1 => Note::Cs1n,
            2 => Note::D1n,
            3 => Note::Ds1n,
            4 => Note::E1n,
            5 => Note::F1n,
            6 => Note::Fs1n,
            7 => Note::G1n,
            8 => Note::Gs1n,
            9 => Note::A1n,
            10 => Note::As1n,
            11 => Note::B1n,
            12 => Note::C0,
            13 => Note::Cs0,
            14 => Note::D0,
            15 => Note::Ds0,
            16 => Note::E0,
            17 => Note::F0,
            18 => Note::Fs0,
            19 => Note::G0,
            20 => Note::Gs0,
            21 => Note::A0,
            22 => Note::As0,
            23 => Note::B0,
            24 => Note::C1,
            25 => Note::Cs1,
            26 => Note::D1,
            27 => Note::Ds1,
            28 => Note::E1,
            29 => Note::F1,
            30 => Note::Fs1,
            31 => Note::G1,
            32 => Note::Gs1,
            33 => Note::A1,
            34 => Note::As1,
            35 => Note::B1,
            36 => Note::C2,
            37 => Note::Cs2,
            38 => Note::D2,
            39 => Note::Ds2,
            40 => Note::E2,
            41 => Note::F2,
            42 => Note::Fs2,
            43 => Note::G2,
            44 => Note::Gs2,
            45 => Note::A2,
            46 => Note::As2,
            47 => Note::B2,
            48 => Note::C3,
            49 => Note::Cs3,
            50 => Note::D3,
            51 => Note::Ds3,
            52 => Note::E3,
            53 => Note::F3,
            54 => Note::Fs3,
            55 => Note::G3,
            56 => Note::Gs3,
            57 => Note::A3,
            58 => Note::As3,
            59 => Note::B3,
            60 => Note::C4,
            61 => Note::Cs4,
            62 => Note::D4,
            63 => Note::Ds4,
            64 => Note::E4,
            65 => Note::F4,
            66 => Note::Fs4,
            67 => Note::G4,
            68 => Note::Gs4,
            69 => Note::A4,
            70 => Note::As4,
            71 => Note::B4,
            72 => Note::C5,
            73 => Note::Cs5,
            74 => Note::D5,
            75 => Note::Ds5,
            76 => Note::E5,
            77 => Note::F5,
            78 => Note::Fs5,
            79 => Note::G5,
            80 => Note::Gs5,
            81 => Note::A5,
            82 => Note::As5,
            83 => Note::B5,
            84 => Note::C6,
            85 => Note::Cs6,
            86 => Note::D6,
            87 => Note::Ds6,
            88 => Note::E6,
            89 => Note::F6,
            90 => Note::Fs6,
            91 => Note::G6,
            92 => Note::Gs6,
            93 => Note::A6,
            94 => Note::As6,
            95 => Note::B6,
            96 => Note::C7,
            97 => Note::Cs7,
            98 => Note::D7,
            99 => Note::Ds7,
            100 => Note::E7,
            101 => Note::F7,
            102 => Note::Fs7,
            103 => Note::G7,
            104 => Note::Gs7,
            105 => Note::A7,
            106 => Note::As7,
            107 => Note::B7,
            108 => Note::C8,
            109 => Note::Cs8,
            110 => Note::D8,
            111 => Note::Ds8,
            112 => Note::E8,
            113 => Note::F8,
            114 => Note::Fs8,
            115 => Note::G8,
            116 => Note::Gs8,
            117 => Note::A8,
            118 => Note::As8,
            119 => Note::B8,
            120 => Note::C9,
            121 => Note::Cs9,
            122 => Note::D9,
            123 => Note::Ds9,
            124 => Note::E9,
            125 => Note::F9,
            126 => Note::Fs9,
            _ => Note::G9,
        };
        proof {
            lemma_number_injective(r, note_of(n));
        }
        r
    }
}

/// The note with number `n`, for `n` below 128.
pub open spec fn note_of(n: u8) -> Note {
    choose|m: Note| m.spec_number() == n
}

proof fn lemma_number_injective(a: Note, b: Note)
    requires
        a.spec_number() == b.spec_number(),
    ensures
        a == b,
{
}

impl TryFrom<u8> for Note {
    type Error = ErrorKind;

    /// The note with number `n`; [`ErrorKind::OutOfRange`] above 127.
    fn try_from(n: u8) -> (r: Result<Note, ErrorKind>) {
        if n < 128 {
            Ok(Note::from_u7(n))
        } else {
            Err(ErrorKind::OutOfRange)
        }
    }
}

impl vstd::std_specs::convert::TryFromSpecImpl<u8> for Note {
    open spec fn obeys_try_from_spec() -> bool {
        true
    }

    open spec fn try_from_spec(n: u8) -> Result<Note, ErrorKind> {
        if n < 128 {
            Ok(note_of(n as u8))
        } else {
            Err(ErrorKind::OutOfRange)
        }
    }
}

impl TryFrom<i8> for Note {
    type Error = ErrorKind;

    /// The note with number `n`; [`ErrorKind::OutOfRange`] below 0.
    fn try_from(n: i8) -> (r: Result<Note, ErrorKind>) {
        if n >= 0 {
            Ok(Note::from_u7(n as u8))
        } else {
            Err(ErrorKind::OutOfRange)
        }
    }
}

impl vstd::std_specs::convert::TryFromSpecImpl<i8> for Note {
    open spec fn obeys_try_from_spec() -> bool {
        true
    }

    open spec fn try_from_spec(n: i8) -> Result<Note, ErrorKind> {
        if n >= 0 {
            Ok(note_of(n as u8))
        } else {
            Err(ErrorKind::OutOfRange)
        }
    }
}

impl From<Note> for u8 {
    /// The note's number.
    fn from(n: Note) -> (r: u8) {
        n.number()
    }
}

impl vstd::std_specs::convert::FromSpecImpl<Note> for u8 {
    open spec fn obeys_from_spec() -> bool {
        true
    }

    open spec fn from_spec(n: Note) -> u8 {
        n.spec_number()
    }
}

impl From<Note> for i8 {
    /// The note's number, which is never negative.
    fn from(n: Note) -> (r: i8) {
        n.number() as i8
    }
}

impl vstd::std_specs::convert::FromSpecImpl<Note> for i8 {
    open spec fn obeys_from_spec() -> bool {
        true
    }

    open spec fn from_spec(n: Note) -> i8 {
        n.spec_number() as i8
    }
}

} // verus!
