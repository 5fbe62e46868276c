//! Primitive reads and the variable-length quantity.
use crate::error::{malformed, result_view, short_by, ErrorKind, Needed, ParseError, ParseResult};
use vstd::prelude::*;

verus! {

/// Reading one byte whose high bit must be clear.
pub open spec fn spec_be_u7(s: Seq<u8>) -> Result<(Seq<u8>, u8), ParseError> {
    if s.len() == 0 {
        Err(short_by(1))
    } else if s[0] >= 0x80 {
        Err(malformed(ErrorKind::OutOfRange, s))
    } else {
        Ok((s.skip(1), s[0]))
    }
}

/// Reads one byte whose most significant bit is 0.
pub fn be_u7<'a>(i: &'a [u8]) -> (r: ParseResult<'a, u8>)
    ensures
        result_view(r) == spec_be_u7(i@),
{
    if i.len() == 0 {
        Err(ParseError::Incomplete(Needed::Size(1)))
    } else {
        let val = i[0];
        if val > 127 {
            Err(ParseError::Malformed { kind: ErrorKind::OutOfRange, remaining: i.len() })
        } else {
            let (_, rest) = i.split_at(1);
            Ok((rest, val))
        }
    }
}

/// Splitting off the first `n` bytes.
pub open spec fn spec_take(s: Seq<u8>, n: nat) -> Result<(Seq<u8>, Seq<u8>), ParseError> {
    if s.len() < n {
        Err(short_by(n - s.len()))
    } else {
        Ok((s.skip(n as int), s.take(n as int)))
    }
}

/// Takes the first `n` bytes of the input.
pub(crate) fn take<'a>(i: &'a [u8], n: usize) -> (r: ParseResult<'a, &'a [u8]>)
    ensures
        result_view(r) == spec_take(i@, n as nat),
{
    if i.len() < n {
        Err(ParseError::Incomplete(Needed::Size(n - i.len())))
    } else {
        let (data, rest) = i.split_at(n);
        Ok((rest, data))
    }
}

/// Matching a literal tag. A prefix of the input that disagrees with the tag is malformed; a
/// prefix that agrees but is shorter than the tag is incomplete.
pub open spec fn spec_tag(s: Seq<u8>, t: Seq<u8>) -> Result<(Seq<u8>, ()), ParseError> {
    if exists|j: int| 0 <= j < s.len() && j < t.len() && s[j] != t[j] {
        Err(malformed(ErrorKind::TagMismatch, s))
    } else if s.len() < t.len() {
        Err(short_by(t.len() - s.len()))
    } else {
        Ok((s.skip(t.len() as int), ()))
    }
}

/// Input that starts with the tag matches it.
pub(crate) proof fn lemma_tag_matches(s: Seq<u8>, t: Seq<u8>)
    requires
        s.len() >= t.len(),
        s.take(t.len() as int) == t,
    ensures
        spec_tag(s, t) == Ok::<(Seq<u8>, ()), ParseError>((s.skip(t.len() as int), ())),
{
    assert forall|j: int| 0 <= j < s.len() && j < t.len() implies s[j] == t[j] by {
        assert(s.take(t.len() as int)[j] == s[j]);
    }
}

/// Matches the literal tag `t` at the start of the input.
pub(crate) fn tag<'a>(i: &'a [u8], t: &[u8]) -> (r: ParseResult<'a, ()>)
    ensures
        result_view(r) == spec_tag(i@, t@),
{
    let mut k: usize = 0;
    while k < i.len() && k < t.len()
        invariant
            k <= i.len(),
            k <= t.len(),
            forall|j: int| 0 <= j < k ==> i@[j] == t@[j],
        decreases t.len() - k,
    {
        if i[k] != t[k] {
            return Err(ParseError::Malformed { kind: ErrorKind::TagMismatch, remaining: i.len() });
        }
        k += 1;
    }
    if i.len() < t.len() {
        Err(ParseError::Incomplete(Needed::Size(t.len() - i.len())))
    } else {
        let (_, rest) = i.split_at(t.len());
        Ok((rest, ()))
    }
}

/// Matching a single marker byte.
pub open spec fn spec_marker(s: Seq<u8>, m: u8) -> Result<(Seq<u8>, ()), ParseError> {
    if s.len() < 1 {
        Err(short_by(1))
    } else if s[0] != m {
        Err(malformed(ErrorKind::TagMismatch, s))
    } else {
        Ok((s.skip(1), ()))
    }
}

/// Matches the marker byte `m` at the start of the input.
pub(crate) fn marker<'a>(i: &'a [u8], m: u8) -> (r: ParseResult<'a, ()>)
    ensures
        result_view(r) == spec_marker(i@, m),
{
    if i.len() < 1 {
        Err(ParseError::Incomplete(Needed::Size(1)))
    } else if i[0] != m {
        Err(ParseError::Malformed { kind: ErrorKind::TagMismatch, remaining: i.len() })
    } else {
        let (_, rest) = i.split_at(1);
        Ok((rest, ()))
    }
}

/// Reading one byte.
pub open spec fn spec_be_u8(s: Seq<u8>) -> Result<(Seq<u8>, u8), ParseError> {
    if s.len() < 1 {
        Err(short_by(1))
    } else {
        Ok((s.skip(1), s[0]))
    }
}

/// Reads one byte.
pub(crate) fn be_u8<'a>(i: &'a [u8]) -> (r: ParseResult<'a, u8>)
    ensures
        result_view(r) == spec_be_u8(i@),
{
    if i.len() < 1 {
        Err(ParseError::Incomplete(Needed::Size(1)))
    } else {
        let (_, rest) = i.split_at(1);
        Ok((rest, i[0]))
    }
}

/// The big-endian value of two bytes.
pub open spec fn u16_be(hi: u8, lo: u8) -> u16 {
    (hi * 0x100 + lo) as u16
}

/// The big-endian value of the first four bytes of `s`.
pub open spec fn u32_be(s: Seq<u8>) -> u32 {
    (((s[0] * 0x100 + s[1]) * 0x100 + s[2]) * 0x100 + s[3]) as u32
}

/// Reading a big-endian 16-bit integer.
pub open spec fn spec_be_u16(s: Seq<u8>) -> Result<(Seq<u8>, u16), ParseError> {
    if s.len() < 2 {
        Err(short_by(2 - s.len()))
    } else {
        Ok((s.skip(2), u16_be(s[0], s[1])))
    }
}

/// Reads a big-endian 16-bit integer.
pub(crate) fn be_u16<'a>(i: &'a [u8]) -> (r: ParseResult<'a, u16>)
    ensures
        result_view(r) == spec_be_u16(i@),
{
    if i.len() < 2 {
        Err(ParseError::Incomplete(Needed::Size(2 - i.len())))
    } else {
        let (_, rest) = i.split_at(2);
        Ok((rest, (i[0] as u16) * 0x100 + (i[1] as u16)))
    }
}

/// Reading a big-endian 32-bit integer.
pub open spec fn spec_be_u32(s: Seq<u8>) -> Result<(Seq<u8>, u32), ParseError> {
    if s.len() < 4 {
        Err(short_by(4 - s.len()))
    } else {
        Ok((s.skip(4), u32_be(s)))
    }
}

/// Reads a big-endian 32-bit integer.
pub(crate) fn be_u32<'a>(i: &'a [u8]) -> (r: ParseResult<'a, u32>)
    ensures
        result_view(r) == spec_be_u32(i@),
{
    if i.len() < 4 {
        Err(ParseError::Incomplete(Needed::Size(4 - i.len())))
    } else {
        let (_, rest) = i.split_at(4);
        let hi = (i[0] as u32) * 0x100 + (i[1] as u32);
        let v = ((hi * 0x100) + (i[2] as u32)) * 0x100 + (i[3] as u32);
        Ok((rest, v))
    }
}

/// The value of `s` read as base-128 digits, most significant first, where each byte
/// contributes its low 7 bits.
pub open spec fn vlq_digits(s: Seq<u8>) -> nat
    decreases s.len(),
{
    if s.len() == 0 {
        0
    } else {
        vlq_digits(s.drop_last()) * 128 + (s.last() % 128) as nat
    }
}

/// Reading a variable-length quantity from `s`, where the bytes before position `k` all have
/// their high bit set. The quantity ends at the first byte whose high bit is clear; it may
/// hold at most four bytes.
pub open spec fn vlq_scan(s: Seq<u8>, k: nat) -> Result<(Seq<u8>, u32), ParseError>
    decreases 4 - k,
{
    if s.len() <= k {
        Err(ParseError::Incomplete(Needed::Unknown))
    } else if s[k as int] < 0x80 {
        Ok((s.skip(k + 1int), vlq_digits(s.take(k + 1int)) as u32))
    } else if k >= 3 {
        Err(malformed(ErrorKind::TooLarge, s))
    } else {
        vlq_scan(s, k + 1)
    }
}

/// Reading a variable-length quantity.
pub open spec fn spec_var_length(s: Seq<u8>) -> Result<(Seq<u8>, u32), ParseError> {
    vlq_scan(s, 0)
}

/// 128 to the power `n`: one more than the largest value of `n` base-128 digits.
pub open spec fn base128_limit(n: nat) -> nat
    decreases n,
{
    if n == 0 {
        1
    } else {
        128 * base128_limit((n - 1) as nat)
    }
}

proof fn lemma_vlq_digits_bound(s: Seq<u8>)
    ensures
        vlq_digits(s) < base128_limit(s.len()),
    decreases s.len(),
{
    if s.len() > 0 {
        let a = vlq_digits(s.drop_last());
        let b = base128_limit(s.drop_last().len());
        let d = (s.last() % 128) as nat;
        lemma_vlq_digits_bound(s.drop_last());
        assert(a * 128 + d < 128 * b) by (nonlinear_arith)
            requires
                a < b,
                d < 128,
        ;
    }
}

/// Decodes a variable-length quantity: each byte gives its low 7 bits to the value, most
/// significant first, and a set high bit means that more bytes follow. At most four bytes
/// form one quantity, so the value fits in 32 bits.
pub fn parse_var_length<'a>(i: &'a [u8]) -> (r: ParseResult<'a, u32>)
    ensures
        result_view(r) == spec_var_length(i@),
{
    if i.len() == 0 {
        return Err(ParseError::Incomplete(Needed::Unknown));
    }
    let mut pos: usize = 0;
    let mut value: u32 = 0;
    while i[pos] >= 0x80
        invariant
            pos < 4,
            pos < i.len(),
            value as nat == vlq_digits(i@.take(pos as int)),
            spec_var_length(i@) == vlq_scan(i@, pos as nat),
        decreases 4 - pos,
    {
        proof {
            lemma_vlq_digits_bound(i@.take(pos as int));
            reveal_with_fuel(base128_limit, 4);
            assert(i@.take(pos + 1).drop_last() =~= i@.take(pos as int));
        }
        value = value * 128 + (i[pos] - 0x80) as u32;
        pos += 1;
        if pos >= 4 {
            return Err(ParseError::Malformed { kind: ErrorKind::TooLarge, remaining: i.len() });
        }
        if i.len() <= pos {
            return Err(ParseError::Incomplete(Needed::Unknown));
        }
    }
    proof {
        lemma_vlq_digits_bound(i@.take(pos as int));
        reveal_with_fuel(base128_limit, 4);
        assert(i@.take(pos + 1).drop_last() =~= i@.take(pos as int));
    }
    value = value * 128 + i[pos] as u32;
    let (_, rest) = i.split_at(pos + 1);
    Ok((rest, value))
}

/// The leading bytes of an encoding: the base-128 digits of `v`, most significant first, each
/// with its high bit set; none for 0.
pub open spec fn vlq_lead(v: nat) -> Seq<u8>
    decreases v,
{
    if v == 0 {
        seq![]
    } else {
        vlq_lead(v / 128).push((0x80 + v % 128) as u8)
    }
}

/// The encoding of `v` as a variable-length quantity: the leading bytes of `v / 128`, then the
/// last digit with its high bit clear.
pub open spec fn vlq_encode(v: nat) -> Seq<u8> {
    vlq_lead(v / 128).push((v % 128) as u8)
}

proof fn lemma_vlq_lead(v: nat, n: nat)
    requires
        v < base128_limit(n),
    ensures
        vlq_lead(v).len() <= n,
        vlq_digits(vlq_lead(v)) == v,
        forall|j: int| 0 <= j < vlq_lead(v).len() ==> vlq_lead(v)[j] >= 0x80,
    decreases v,
{
    if v > 0 {
        let w = v / 128;
        assert(n > 0);
        assert(w < base128_limit((n - 1) as nat)) by (nonlinear_arith)
            requires
                v < 128 * base128_limit((n - 1) as nat),
                w == v / 128,
        ;
        lemma_vlq_lead(w, (n - 1) as nat);
        let e = vlq_lead(v);
        assert(e.drop_last() =~= vlq_lead(w));
        assert(vlq_digits(e) == w * 128 + v % 128);
    }
}

proof fn lemma_vlq_scan_skips(s: Seq<u8>, k: nat, m: nat)
    requires
        k <= m < 4,
        m < s.len(),
        forall|j: int| k <= j < m ==> s[j] >= 0x80,
    ensures
        vlq_scan(s, k) == vlq_scan(s, m),
    decreases m - k,
{
    if k < m {
        lemma_vlq_scan_skips(s, k + 1, m);
    }
}

/// Decoding the encoding of any value below 2^28 (the values that fit in four bytes) gives
/// the value back, and leaves whatever followed the encoding.
pub proof fn lemma_var_length_round_trip(v: u32, rest: Seq<u8>)
    requires
        v < 0x1000_0000,
    ensures
        vlq_encode(v as nat).len() <= 4,
        spec_var_length(vlq_encode(v as nat) + rest) == Ok::<(Seq<u8>, u32), ParseError>((rest, v)),
{
    let w = (v / 128) as nat;
    reveal_with_fuel(base128_limit, 4);
    lemma_vlq_lead(w, 3);
    let e = vlq_encode(v as nat);
    let s = e + rest;
    let m = (e.len() - 1) as nat;
    assert(e.drop_last() =~= vlq_lead(w));
    assert(vlq_digits(e) == v);
    assert(s.take(m + 1int) =~= e);
    assert(s.skip(m + 1int) =~= rest);
    lemma_vlq_scan_skips(s, 0, m);
}

/// Reading a variable-length quantity, then that many bytes.
pub open spec fn spec_var_length_bytes(s: Seq<u8>) -> Result<(Seq<u8>, Seq<u8>), ParseError> {
    match spec_var_length(s) {
        Err(e) => Err(e),
        Ok((rest, n)) => spec_take(rest, n as nat),
    }
}

proof fn lemma_vlq_scan_consumes(s: Seq<u8>, k: nat)
    ensures
        vlq_scan(s, k) matches Ok((rest, _)) ==> rest.len() < s.len(),
    decreases 4 - k,
{
    if s.len() > k && s[k as int] >= 0x80 && k < 3 {
        lemma_vlq_scan_consumes(s, k + 1);
    }
}

/// A variable-length quantity, and a block that one prefixes, take at least one byte.
pub proof fn lemma_var_length_consumes(s: Seq<u8>)
    ensures
        spec_var_length(s) matches Ok((rest, _)) ==> rest.len() < s.len(),
        spec_var_length_bytes(s) matches Ok((rest, _)) ==> rest.len() < s.len(),
{
    lemma_vlq_scan_consumes(s, 0);
}

proof fn lemma_vlq_scan_extends(s: Seq<u8>, t: Seq<u8>, k: nat)
    ensures
        vlq_scan(s, k) matches Ok((r, v)) ==> vlq_scan(s + t, k) == Ok::<(Seq<u8>, u32), ParseError>((r + t, v)),
    decreases 4 - k,
{
    if s.len() > k {
        if s[k as int] < 0x80 {
            assert((s + t).take(k + 1int) =~= s.take(k + 1int));
            assert((s + t).skip(k + 1int) =~= s.skip(k + 1int) + t);
        } else if k < 3 {
            lemma_vlq_scan_extends(s, t, k + 1);
        }
    }
}

proof fn lemma_vlq_scan_error_at(s: Seq<u8>, k: nat)
    ensures
        vlq_scan(s, k) matches Err(ParseError::Malformed { remaining, .. }) ==> remaining == s.len() as usize,
    decreases 4 - k,
{
    if s.len() > k && s[k as int] >= 0x80 && k < 3 {
        lemma_vlq_scan_error_at(s, k + 1);
    }
}

/// A malformed quantity, or the quantity of a block, is reported where the quantity starts.
pub(crate) proof fn lemma_var_length_error_at(s: Seq<u8>)
    ensures
        spec_var_length(s) matches Err(ParseError::Malformed { remaining, .. }) ==> remaining == s.len() as usize,
        spec_var_length_bytes(s) matches Err(ParseError::Malformed { remaining, .. }) ==> remaining == s.len() as usize,
{
    lemma_vlq_scan_error_at(s, 0);
}

/// Bytes after a complete quantity, or after a complete block, change neither the value nor
/// how much of the input it takes.
pub(crate) proof fn lemma_var_length_extends(s: Seq<u8>, t: Seq<u8>)
    ensures
        spec_var_length(s) matches Ok((r, v)) ==> spec_var_length(s + t) == Ok::<(Seq<u8>, u32), ParseError>((r + t, v)),
        spec_var_length_bytes(s) matches Ok((r, v)) ==> spec_var_length_bytes(s + t) == Ok::<(Seq<u8>, Seq<u8>), ParseError>((r + t, v)),
{
    lemma_vlq_scan_extends(s, t, 0);
    if let Ok((r, n)) = spec_var_length(s) {
        lemma_take_extends(r, t, n as nat);
    }
}

/// Bytes after a complete block of bytes change neither the block nor how much of the input it
/// takes.
pub(crate) proof fn lemma_take_extends(s: Seq<u8>, t: Seq<u8>, n: nat)
    ensures
        spec_take(s, n) matches Ok((r, v)) ==> spec_take(s + t, n) == Ok::<(Seq<u8>, Seq<u8>), ParseError>((r + t, v)),
{
    if s.len() >= n {
        assert((s + t).take(n as int) =~= s.take(n as int));
        assert((s + t).skip(n as int) =~= s.skip(n as int) + t);
    }
}

/// Bytes after one complete byte read change neither its value nor what is left before them.
pub(crate) proof fn lemma_byte_extends(s: Seq<u8>, t: Seq<u8>, m: u8)
    ensures
        spec_be_u8(s) matches Ok((r, v)) ==> spec_be_u8(s + t) == Ok::<(Seq<u8>, u8), ParseError>((r + t, v)),
        spec_be_u7(s) matches Ok((r, v)) ==> spec_be_u7(s + t) == Ok::<(Seq<u8>, u8), ParseError>((r + t, v)),
        spec_marker(s, m) matches Ok((r, v)) ==> spec_marker(s + t, m) == Ok::<(Seq<u8>, ()), ParseError>((r + t, v)),
{
    if s.len() >= 1 {
        assert((s + t)[0] == s[0]);
        assert((s + t).skip(1) =~= s.skip(1) + t);
    }
}

/// Decodes a variable-length quantity, then takes that many bytes.
pub fn parse_var_length_bytes<'a>(i: &'a [u8]) -> (r: ParseResult<'a, &'a [u8]>)
    ensures
        result_view(r) == spec_var_length_bytes(i@),
{
    let (i, size) = parse_var_length(i)?;
    take(i, size as usize)
}

} // verus!
