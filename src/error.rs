//! Failures of the decoders.
use vstd::prelude::*;

verus! {

/// How many more bytes a truncated input needs, where that is known.
#[derive(Debug, Clone, Copy, PartialEq, Eq, Structural)]
pub enum Needed {
    /// More bytes are needed, but not how many.
    Unknown,
    /// At least this many more bytes are needed.
    Size(usize),
}

/// Why a sequence of bytes is not a valid encoding.
#[derive(Debug, Clone, Copy, PartialEq, Eq, Structural)]
pub enum ErrorKind {
    /// A chunk tag or a marker byte did not match.
    TagMismatch,
    /// A 7-bit field has its high bit set.
    OutOfRange,
    /// A variable-length quantity does not end within four bytes.
    TooLarge,
    /// The header chunk declares a length other than 6.
    HeaderLength,
    /// The header's format code is not 0, 1 or 2.
    UnknownFormat,
    /// A single-track file declares a track count other than 1.
    TrackCount,
    /// A frame-rate selector is none of the four known rates.
    UnknownFps,
    /// The leading byte of an event starts none of the event families.
    UnknownStatus,
    /// A meta event's payload has the wrong length for its kind.
    PayloadLength,
    /// A key signature has a count outside [-7, 7] or a major/minor flag other than 0 or 1.
    KeySignature,
    /// A track chunk ends in the middle of an event.
    TruncatedEvent,
}

/// The failure of a decoder.
#[derive(Debug, Clone, Copy, PartialEq, Eq, Structural)]
pub enum ParseError {
    /// The input ends before the value is determined: more bytes may complete it.
    Incomplete(Needed),
    /// The bytes present are invalid, whatever follows them: why, and how many bytes of the
    /// input remain from the start of the invalid encoding (the offset of that encoding is the
    /// input's length minus `remaining`).
    Malformed { kind: ErrorKind, remaining: usize },
}

/// What a decoder returns: the rest of the input and the decoded value, or the failure.
pub type ParseResult<'a, T> = Result<(&'a [u8], T), ParseError>;

/// The mathematical value of a decoder's result: the rest of the input as a sequence and the
/// view of the decoded value.
pub open spec fn result_view<'a, T: View>(r: ParseResult<'a, T>) -> Result<(Seq<u8>, T::V), ParseError> {
    match r {
        Ok((rest, v)) => Ok((rest@, v@)),
        Err(e) => Err(e),
    }
}

/// The error for an invalid encoding of kind `kind` that starts where the input `s` starts.
pub open spec fn malformed(kind: ErrorKind, s: Seq<u8>) -> ParseError {
    ParseError::Malformed { kind, remaining: s.len() as usize }
}

/// The error for an input that is `n` bytes short.
pub open spec fn short_by(n: int) -> ParseError {
    ParseError::Incomplete(Needed::Size(n as usize))
}

} // verus!
