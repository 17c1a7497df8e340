//! UTF-16 text as the host hands it over: lossy decoding, the encoding of a
//! text, and that decoding the encoding of a text gives the text back.

use vstd::prelude::*;

verus! {

/// A UTF-16 code unit in the surrogate range.
pub open spec fn is_surrogate(u: u16) -> bool {
    0xD800 <= u <= 0xDFFF
}

/// A leading (high) surrogate.
pub open spec fn is_high_surrogate(u: u16) -> bool {
    0xD800 <= u <= 0xDBFF
}

/// A trailing (low) surrogate.
pub open spec fn is_low_surrogate(u: u16) -> bool {
    0xDC00 <= u <= 0xDFFF
}

/// The code point that a surrogate pair encodes.
pub open spec fn surrogate_pair_code(hi: u16, lo: u16) -> u32 {
    (0x10000 + (hi - 0xD800) * 0x400 + (lo - 0xDC00)) as u32
}

/// Lossy UTF-16 decoding: a code unit outside the surrogate range is its own
/// character, a high surrogate followed by a low one is the character they
/// encode together, and any other surrogate is U+FFFD (the unit after an
/// unpaired high surrogate is decoded on its own).
pub open spec fn utf16_lossy(u: Seq<u16>) -> Seq<char>
    decreases u.len(),
{
    if u.len() == 0 {
        Seq::empty()
    } else if !is_surrogate(u[0]) {
        seq![u[0] as char] + utf16_lossy(u.drop_first())
    } else if is_high_surrogate(u[0]) && u.len() >= 2 && is_low_surrogate(u[1]) {
        seq![surrogate_pair_code(u[0], u[1]) as char] + utf16_lossy(u.subrange(2, u.len() as int))
    } else {
        seq!['\u{FFFD}'] + utf16_lossy(u.drop_first())
    }
}

/// The UTF-16 code units of a character: one unit below U+10000, else a
/// surrogate pair.
pub open spec fn char_utf16(c: char) -> Seq<u16> {
    let n = c as u32;
    if n < 0x10000 {
        seq![n as u16]
    } else {
        seq![(0xD800 + (n - 0x10000) / 0x400) as u16, (0xDC00 + (n - 0x10000) % 0x400) as u16]
    }
}

/// The UTF-16 encoding of a text.
pub open spec fn utf16_of(s: Seq<char>) -> Seq<u16>
    decreases s.len(),
{
    if s.len() == 0 {
        Seq::empty()
    } else {
        char_utf16(s[0]) + utf16_of(s.drop_first())
    }
}

/// Code units none of which is a surrogate decode each to the character
/// with that code.
pub proof fn lemma_utf16_without_surrogates(u: Seq<u16>)
    requires
        forall|i: int| 0 <= i < u.len() ==> !is_surrogate(#[trigger] u[i]),
    ensures
        utf16_lossy(u) == u.map_values(|x: u16| x as char),
    decreases u.len(),
{
    if u.len() > 0 {
        let rest = u.drop_first();
        assert forall|i: int| 0 <= i < rest.len() implies !is_surrogate(#[trigger] rest[i]) by {
            assert(rest[i] == u[i + 1]);
        }
        lemma_utf16_without_surrogates(rest);
        assert(utf16_lossy(u) =~= u.map_values(|x: u16| x as char));
    }
}

proof fn lemma_char_round_trip(c: char, rest: Seq<u16>)
    ensures
        utf16_lossy(char_utf16(c) + rest) == seq![c] + utf16_lossy(rest),
{
    let n = c as u32;
    let e = char_utf16(c);
    let t = e + rest;
    if n < 0x10000 {
        assert(t[0] == n as u16);
        assert(!is_surrogate(n as u16));
        assert(t.drop_first() =~= rest);
        assert(((n as u16) as char) == c);
    } else {
        let m = (n - 0x10000) as int;
        let hi = (0xD800 + m / 0x400) as u16;
        let lo = (0xDC00 + m % 0x400) as u16;
        assert(m / 0x400 <= 0x3FF);
        assert(t[0] == hi);
        assert(t[1] == lo);
        assert(is_high_surrogate(hi));
        assert(is_low_surrogate(lo));
        assert(t.subrange(2, t.len() as int) =~= rest);
        assert(m == (m / 0x400) * 0x400 + m % 0x400);
        assert(surrogate_pair_code(hi, lo) == n);
        assert((n as char) == c);
    }
}

/// Decoding the UTF-16 encoding of a text gives the text back.
pub proof fn lemma_utf16_round_trip(s: Seq<char>)
    ensures
        utf16_lossy(utf16_of(s)) == s,
    decreases s.len(),
{
    if s.len() > 0 {
        lemma_utf16_round_trip(s.drop_first());
        lemma_char_round_trip(s[0], utf16_of(s.drop_first()));
        assert(seq![s[0]] + s.drop_first() =~= s);
    }
}

/// Decodes UTF-16 code units with `widestring::U16Str::to_string_lossy`,
/// which is `String::from_utf16_lossy`: surrogate pairs combine, any other
/// surrogate becomes U+FFFD. It never fails or panics.
#[verifier::external_body]
fn decode_utf16_lossy(units: &[u16]) -> (s: String)
    ensures
        s@ == utf16_lossy(units@),
{
    widestring::U16Str::from_slice(units).to_string_lossy()
}

/// Decodes the UTF-16 text that the host hands over (without its
/// terminating zero).
pub fn text_from_utf16(units: &[u16]) -> (s: String)
    ensures
        s@ == utf16_lossy(units@),
        (forall|i: int| 0 <= i < units@.len() ==> !is_surrogate(#[trigger] units@[i]))
            ==> s@ == units@.map_values(|u: u16| u as char),
{
    proof {
        if forall|i: int| 0 <= i < units@.len() ==> !is_surrogate(#[trigger] units@[i]) {
            lemma_utf16_without_surrogates(units@);
        }
    }
    decode_utf16_lossy(units)
}

} // verus!
