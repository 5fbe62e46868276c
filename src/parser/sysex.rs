//! System-exclusive messages and escape sequences.
use crate::error::{result_view, ParseError, ParseResult};
use crate::parser::util::{
    lemma_byte_extends, lemma_var_length_extends, marker, parse_var_length_bytes, spec_marker,
    spec_var_length_bytes,
};
use crate::types::{EscapeSequence, SystemExclusiveEvent};
use vstd::prelude::*;

verus! {

/// Decoding a marker byte `m`, then a block of bytes prefixed by its length.
pub open spec fn spec_marked_block(s: Seq<u8>, m: u8) -> Result<(Seq<u8>, Seq<u8>), ParseError> {
    match spec_marker(s, m) {
        Err(e) => Err(e),
        Ok((s, _)) => spec_var_length_bytes(s),
    }
}

pub(crate) proof fn lemma_marked_block_extends(s: Seq<u8>, t: Seq<u8>, m: u8)
    ensures
        spec_marked_block(s, m) matches Ok((r, v)) ==> spec_marked_block(s + t, m) == Ok::<(Seq<u8>, Seq<u8>), ParseError>((r + t, v)),
{
    lemma_byte_extends(s, t, m);
    if let Ok((s1, _)) = spec_marker(s, m) {
        lemma_var_length_extends(s1, t);
    }
}

/// Decodes a system-exclusive message: the marker 0xF0, then its bytes, prefixed by their
/// length as a variable-length quantity.
pub fn parse_sysex_message<'a>(i: &'a [u8]) -> (r: ParseResult<'a, SystemExclusiveEvent<'a>>)
    ensures
        result_view(r) == spec_marked_block(i@, 0xF0),
{
    let (i, _) = marker(i, 0xF0)?;
    let (i, data) = parse_var_length_bytes(i)?;
    Ok((i, SystemExclusiveEvent(data)))
}

/// Decodes an escape sequence: the marker 0xF7, then its bytes, prefixed by their length as
/// a variable-length quantity.
pub fn parse_escape_sequence<'a>(i: &'a [u8]) -> (r: ParseResult<'a, EscapeSequence<'a>>)
    ensures
        result_view(r) == spec_marked_block(i@, 0xF7),
{
    let (i, _) = marker(i, 0xF7)?;
    let (i, data) = parse_var_length_bytes(i)?;
    Ok((i, EscapeSequence(data)))
}

} // verus!
