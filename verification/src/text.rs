//! Building text: decimal and fixed-width hexadecimal renderings of
//! integers, and the lossy decoders of `std` for raw byte / code-unit runs.
use vstd::prelude::*;

verus! {

/// The decimal digit character for `d < 10`.
pub open spec fn dec_digit(d: nat) -> char {
    ((48 + d) as u8) as char
}

/// The upper-case hexadecimal digit character for `d < 16`.
pub open spec fn hex_digit(d: nat) -> char {
    (if d < 10 { (48 + d) as u8 } else { (55 + d) as u8 }) as char
}

/// Decimal rendering of `v` without leading zeros (`"0"` for zero).
pub open spec fn dec_digits(v: nat) -> Seq<char>
    decreases v,
{
    if v < 10 {
        seq![dec_digit(v)]
    } else {
        dec_digits(v / 10).push(dec_digit(v % 10))
    }
}

/// The lowest `n` hexadecimal digits of `v`, most significant first.
pub open spec fn hex_digits(v: nat, n: nat) -> Seq<char>
    decreases n,
{
    if n == 0 {
        Seq::empty()
    } else {
        hex_digits(v / 16, (n - 1) as nat).push(hex_digit(v % 16))
    }
}

/// `0x` followed by `n` upper-case hexadecimal digits of `v`.
pub open spec fn hex_prefixed(v: nat, n: nat) -> Seq<char> {
    "0x"@ + hex_digits(v, n)
}

/// A hexadecimal rendering has exactly the digits asked for.
pub proof fn lemma_hex_prefixed_len(v: nat, n: nat)
    ensures
        hex_digits(v, n).len() == n,
        hex_prefixed(v, n).len() == n + 2,
    decreases n,
{
    reveal_strlit("0x");
    if n > 0 {
        lemma_hex_prefixed_len(v / 16, (n - 1) as nat);
    }
}

/// Appends one character to a string.
#[verifier::external_body]
pub(crate) fn push_char(s: &mut String, c: char)
    ensures
        final(s)@ == old(s)@.push(c),
{
    s.push(c);
}

fn digit_char(d: u8) -> (c: char)
    requires
        d < 16,
    ensures
        c == hex_digit(d as nat),
        d < 10 ==> c == dec_digit(d as nat),
{
    let b: u8 = if d < 10 { 48 + d } else { 55 + d };
    b as char
}

/// Appends the decimal digits of `v`.
pub fn push_dec(s: &mut String, v: u64)
    ensures
        final(s)@ == old(s)@ + dec_digits(v as nat),
    decreases v,
{
    let ghost start = s@;
    if v >= 10 {
        push_dec(s, v / 10);
    }
    let c = digit_char((v % 10) as u8);
    push_char(s, c);
    proof {
        if v >= 10 {
            assert(s@ =~= start + dec_digits(v as nat));
        } else {
            assert(s@ =~= start + dec_digits(v as nat));
        }
    }
}

/// Appends the lowest `n` hexadecimal digits of `v`.
pub fn push_hex(s: &mut String, v: u64, n: u32)
    ensures
        final(s)@ == old(s)@ + hex_digits(v as nat, n as nat),
    decreases n,
{
    let ghost start = s@;
    if n > 0 {
        push_hex(s, v / 16, n - 1);
        let c = digit_char((v % 16) as u8);
        push_char(s, c);
        assert(s@ =~= start + hex_digits(v as nat, n as nat));
    } else {
        assert(s@ =~= start + hex_digits(v as nat, n as nat));
    }
}

/// The lower-case hexadecimal digit character for `d < 16`.
pub open spec fn lower_hex_digit(d: nat) -> char {
    (if d < 10 { (48 + d) as u8 } else { (87 + d) as u8 }) as char
}

/// The lowest `n` lower-case hexadecimal digits of `v`, most significant
/// first.
pub open spec fn lower_hex_digits(v: nat, n: nat) -> Seq<char>
    decreases n,
{
    if n == 0 {
        Seq::empty()
    } else {
        lower_hex_digits(v / 16, (n - 1) as nat).push(lower_hex_digit(v % 16))
    }
}

fn lower_digit_char(d: u8) -> (c: char)
    requires
        d < 16,
    ensures
        c == lower_hex_digit(d as nat),
{
    let b: u8 = if d < 10 { 48 + d } else { 87 + d };
    b as char
}

/// Appends the lowest `n` lower-case hexadecimal digits of `v`.
pub fn push_lower_hex(s: &mut String, v: u64, n: u32)
    ensures
        final(s)@ == old(s)@ + lower_hex_digits(v as nat, n as nat),
    decreases n,
{
    let ghost start = s@;
    if n > 0 {
        push_lower_hex(s, v / 16, n - 1);
        let c = lower_digit_char((v % 16) as u8);
        push_char(s, c);
        assert(s@ =~= start + lower_hex_digits(v as nat, n as nat));
    } else {
        assert(s@ =~= start + lower_hex_digits(v as nat, n as nat));
    }
}

/// Decimal rendering of `v`.
pub fn dec_string(v: u64) -> (r: String)
    ensures
        r@ == dec_digits(v as nat),
{
    let mut s = String::new();
    push_dec(&mut s, v);
    assert(s@ =~= dec_digits(v as nat));
    s
}

/// `0x` followed by `n` upper-case hexadecimal digits of `v`.
pub fn hex_string(v: u64, n: u32) -> (r: String)
    ensures
        r@ == hex_prefixed(v as nat, n as nat),
{
    let mut s = String::from_str("0x");
    push_hex(&mut s, v, n);
    s
}

/// Every byte is below `0x80`.
pub open spec fn is_ascii_bytes(b: Seq<u8>) -> bool {
    forall|i: int| 0 <= i < b.len() ==> #[trigger] b[i] < 128
}

/// Each byte taken as the character with that code.
pub open spec fn ascii_chars(b: Seq<u8>) -> Seq<char> {
    b.map_values(|x: u8| x as char)
}

/// Every code unit lies below the surrogate range.
pub open spec fn is_plain_utf16(u: Seq<u16>) -> bool {
    forall|i: int| 0 <= i < u.len() ==> #[trigger] u[i] < 0xD800
}

/// Each code unit taken as the character with that code.
pub open spec fn utf16_chars(u: Seq<u16>) -> Seq<char> {
    u.map_values(|x: u16| x as char)
}

/// No byte is zero.
pub open spec fn no_zero_byte(b: Seq<u8>) -> bool {
    forall|i: int| 0 <= i < b.len() ==> #[trigger] b[i] != 0
}

/// No code unit is zero.
pub open spec fn no_zero_unit(u: Seq<u16>) -> bool {
    forall|i: int| 0 <= i < u.len() ==> #[trigger] u[i] != 0
}

/// No character is `NUL`.
pub open spec fn no_nul_char(s: Seq<char>) -> bool {
    forall|i: int| 0 <= i < s.len() ==> #[trigger] s[i] != '\0'
}

/// What `String::from_utf8_lossy` makes of a byte run.
pub uninterp spec fn utf8_lossy(bytes: Seq<u8>) -> Seq<char>;

/// What `String::from_utf16_lossy` makes of a run of UTF-16 code units.
pub uninterp spec fn utf16_lossy(units: Seq<u16>) -> Seq<char>;

/// Calls `String::from_utf8_lossy`. Its result is named `utf8_lossy`; an
/// ASCII run is valid UTF-8 and decodes to one character per byte; and a
/// `NUL` character comes only from a zero byte (UTF-8 encodes U+0000 as
/// that byte alone, and invalid sequences become U+FFFD).
#[verifier::external_body]
pub(crate) fn string_from_utf8_lossy(bytes: &[u8]) -> (r: String)
    ensures
        r@ == utf8_lossy(bytes@),
        is_ascii_bytes(bytes@) ==> r@ == ascii_chars(bytes@),
        no_zero_byte(bytes@) ==> no_nul_char(r@),
{
    String::from_utf8_lossy(bytes).into_owned()
}

/// Calls `String::from_utf16_lossy`. Its result is named `utf16_lossy`;
/// code units below the surrogate range each decode to the character with
/// that code; and a `NUL` character comes only from a zero unit (unpaired
/// surrogates become U+FFFD).
#[verifier::external_body]
pub(crate) fn string_from_utf16_lossy(units: &[u16]) -> (r: String)
    ensures
        r@ == utf16_lossy(units@),
        is_plain_utf16(units@) ==> r@ == utf16_chars(units@),
        no_zero_unit(units@) ==> no_nul_char(r@),
{
    String::from_utf16_lossy(units)
}

} // verus!
