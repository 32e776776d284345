//! UTF-16 text as the native object-manager interface carries it.
use vstd::prelude::*;

verus! {

/// A first (high) surrogate code unit.
pub open spec fn is_high_surrogate(u: u16) -> bool {
    0xD800 <= u && u <= 0xDBFF
}

/// A second (low) surrogate code unit.
pub open spec fn is_low_surrogate(u: u16) -> bool {
    0xDC00 <= u && u <= 0xDFFF
}

/// The scalar value that a high and a low surrogate encode together.
pub open spec fn pair_value(hi: u16, lo: u16) -> u32 {
    (0x10000 + (hi - 0xD800) * 0x400 + (lo - 0xDC00)) as u32
}

/// U+FFFD, which stands in for a code unit that encodes no character.
pub open spec fn replacement_char() -> char {
    0xFFFDu32 as char
}

/// Lossy UTF-16 decoding: a well-formed surrogate pair gives one character,
/// a surrogate outside a pair gives U+FFFD, any other unit gives itself.
pub open spec fn decode_lossy(u: Seq<u16>) -> Seq<char>
    decreases u.len(),
{
    if u.len() == 0 {
        seq![]
    } else if u.len() >= 2 && is_high_surrogate(u[0]) && is_low_surrogate(u[1]) {
        seq![pair_value(u[0], u[1]) as char] + decode_lossy(u.skip(2))
    } else if is_high_surrogate(u[0]) || is_low_surrogate(u[0]) {
        seq![replacement_char()] + decode_lossy(u.skip(1))
    } else {
        seq![u[0] as u32 as char] + decode_lossy(u.skip(1))
    }
}

/// The UTF-16 code units of one character.
pub open spec fn encode_char(c: char) -> Seq<u16> {
    let v = c as u32;
    if v < 0x10000 {
        seq![v as u16]
    } else {
        seq![(0xD800 + (v - 0x10000) / 0x400) as u16, (0xDC00 + (v - 0x10000) % 0x400) as u16]
    }
}

/// The UTF-16 code units of a text.
pub open spec fn encode(s: Seq<char>) -> Seq<u16>
    decreases s.len(),
{
    if s.len() == 0 {
        seq![]
    } else {
        encode_char(s[0]) + encode(s.skip(1))
    }
}

/// A text as the native interface takes a name: UTF-16 with a terminating zero.
pub open spec fn wide_name(s: Seq<char>) -> Seq<u16> {
    encode(s).push(0)
}

/// Decoding splits at any point that does not cut a surrogate pair in two.
pub proof fn lemma_decode_append(a: Seq<u16>, b: Seq<u16>)
    requires
        a.len() == 0 || !is_high_surrogate(a.last()) || b.len() == 0 || !is_low_surrogate(b[0]),
    ensures
        decode_lossy(a + b) == decode_lossy(a) + decode_lossy(b),
    decreases a.len(),
{
    if a.len() == 0 {
        assert(a + b =~= b);
    } else if a.len() >= 2 && is_high_surrogate(a[0]) && is_low_surrogate(a[1]) {
        assert((a + b).skip(2) =~= a.skip(2) + b);
        lemma_decode_append(a.skip(2), b);
    } else {
        assert((a + b).skip(1) =~= a.skip(1) + b);
        lemma_decode_append(a.skip(1), b);
    }
}

/// A surrogate that is part of no pair decodes to U+FFFD at its own place,
/// and the units on either side decode as they would alone.
pub proof fn lemma_lone_surrogate_replaced(a: Seq<u16>, s: u16, b: Seq<u16>)
    requires
        (is_high_surrogate(s) && (b.len() == 0 || !is_low_surrogate(b[0]))) || (
        is_low_surrogate(s) && (a.len() == 0 || !is_high_surrogate(a.last()))),
    ensures
        decode_lossy(a + seq![s] + b) == decode_lossy(a) + seq![replacement_char()]
            + decode_lossy(b),
{
    let rest = seq![s] + b;
    assert(a + seq![s] + b =~= a + rest);
    assert(rest[0] == s);
    lemma_decode_append(a, rest);
    assert(rest.skip(1) =~= b);
    assert(decode_lossy(rest) == seq![replacement_char()] + decode_lossy(b));
    assert(decode_lossy(a) + seq![replacement_char()] + decode_lossy(b) =~= decode_lossy(a)
        + (seq![replacement_char()] + decode_lossy(b)));
}

/// Encoding a concatenation concatenates the encodings.
pub proof fn lemma_encode_append(a: Seq<char>, b: Seq<char>)
    ensures
        encode(a + b) == encode(a) + encode(b),
    decreases a.len(),
{
    if a.len() == 0 {
        assert(a + b =~= b);
        assert(encode(a) =~= seq![]);
        assert(encode(a) + encode(b) =~= encode(b));
    } else {
        assert((a + b).skip(1) =~= a.skip(1) + b);
        lemma_encode_append(a.skip(1), b);
        assert(encode(a + b) =~= encode(a) + encode(b));
    }
}

/// Relies on `String::from_utf16_lossy`: decodes UTF-16 and puts U+FFFD for
/// each unit that is part of no well-formed pair.
#[verifier::external_body]
pub(crate) fn utf16_lossy(units: &[u16]) -> (r: String)
    ensures
        r@ == decode_lossy(units@),
{
    String::from_utf16_lossy(units)
}

/// Relies on `str::encode_utf16`: the UTF-16 code units of the text, in order.
#[verifier::external_body]
pub(crate) fn utf16_units(s: &str) -> (r: Vec<u16>)
    ensures
        r@ == encode(s@),
{
    s.encode_utf16().collect()
}

/// Decodes the first `byte_len / 2` code units of `buf`, lossily.
pub fn text_from_wide(buf: &[u16], byte_len: u16) -> (r: String)
    requires
        byte_len / 2 <= buf@.len(),
    ensures
        r@ == decode_lossy(buf@.take((byte_len / 2) as int)),
{
    let n = (byte_len / 2) as usize;
    let span = vstd::slice::slice_subrange(buf, 0, n);
    utf16_lossy(span)
}

/// The name of an object as the native open calls take it.
pub fn string_to_wstring(s: &str) -> (r: Vec<u16>)
    ensures
        r@ == wide_name(s@),
{
    let mut w = utf16_units(s);
    w.push(0);
    w
}

} // verus!
