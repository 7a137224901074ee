//! UTF-16: text to code units and back.
//!
//! Encoding is exact. Decoding is lossy: a surrogate code unit that is not
//! part of a well-formed pair is replaced by U+FFFD, so decoding never fails.

use vstd::prelude::*;
use vstd::utf8::{char_is_scalar, char_u32_cast, is_scalar};

verus! {

/// The character that stands for a code unit that cannot be decoded.
pub const REPLACEMENT: char = '\u{FFFD}';

/// First code unit of a surrogate pair.
pub open spec fn is_high_surrogate(unit: u16) -> bool {
    0xD800 <= unit <= 0xDBFF
}

/// Second code unit of a surrogate pair.
pub open spec fn is_low_surrogate(unit: u16) -> bool {
    0xDC00 <= unit <= 0xDFFF
}

/// The code units of one character: itself below U+10000, a surrogate pair
/// from there on.
pub open spec fn scalar_units(c: char) -> Seq<u16> {
    let v = c as u32;
    if v < 0x1_0000 {
        seq![v as u16]
    } else {
        seq![
            (0xD800 + (v - 0x1_0000) / 0x400) as u16,
            (0xDC00 + (v - 0x1_0000) % 0x400) as u16,
        ]
    }
}

/// The UTF-16 encoding of `text`: the code units of its characters, in order.
pub open spec fn encoding(text: Seq<char>) -> Seq<u16>
    decreases text.len(),
{
    if text.len() == 0 {
        Seq::empty()
    } else {
        encoding(text.drop_last()) + scalar_units(text.last())
    }
}

/// Whether `units` starts with a well-formed surrogate pair.
pub open spec fn starts_with_pair(units: Seq<u16>) -> bool {
    units.len() >= 2 && is_high_surrogate(units[0]) && is_low_surrogate(units[1])
}

/// The character that the surrogate pair `high`, `low` encodes.
pub open spec fn pair_scalar(high: u16, low: u16) -> char {
    (0x1_0000 + (high - 0xD800) * 0x400 + (low - 0xDC00)) as char
}

/// The character that a code unit outside a pair decodes to.
pub open spec fn unit_scalar(unit: u16) -> char {
    if is_high_surrogate(unit) || is_low_surrogate(unit) {
        REPLACEMENT
    } else {
        unit as char
    }
}

/// The text that `units` decodes to, with U+FFFD in place of each surrogate
/// that has no partner.
pub open spec fn lossy_text(units: Seq<u16>) -> Seq<char>
    decreases units.len(),
{
    if units.len() == 0 {
        Seq::empty()
    } else if starts_with_pair(units) {
        seq![pair_scalar(units[0], units[1])] + lossy_text(units.skip(2))
    } else {
        seq![unit_scalar(units[0])] + lossy_text(units.skip(1))
    }
}

/// Whether `units` is well-formed UTF-16: every surrogate in it is part of a
/// pair of a high one followed by a low one.
pub open spec fn well_formed(units: Seq<u16>) -> bool
    decreases units.len(),
{
    if units.len() == 0 {
        true
    } else if starts_with_pair(units) {
        well_formed(units.skip(2))
    } else {
        !is_high_surrogate(units[0]) && !is_low_surrogate(units[0]) && well_formed(units.skip(1))
    }
}

/// Encodes `text` as UTF-16.
pub fn encode(text: &str) -> (units: Vec<u16>)
    ensures
        units@ == encoding(text@),
{
    let mut units: Vec<u16> = Vec::new();
    for c in chars: text.chars()
        invariant
            chars.seq() == text@,
            units@ == encoding(text@.take(chars.index())),
    {
        assert(text@.take(chars.index() + 1).drop_last() =~= text@.take(chars.index()));
        let v: u32 = c as u32;
        assert(v <= 0x10_FFFF) by {
            char_is_scalar(c);
        }
        if v < 0x1_0000 {
            units.push(v as u16);
        } else {
            let w: u32 = v - 0x1_0000;
            units.push((0xD800 + w / 0x400) as u16);
            units.push((0xDC00 + w % 0x400) as u16);
        }
    }
    assert(text@.take(text@.len() as int) =~= text@);
    units
}

/// `char::from_u32` of std: the character with code point `v`, which exists
/// exactly when `v` is a Unicode scalar value.
#[verifier::external_body]
fn char_from_u32(v: u32) -> (c: Option<char>)
    ensures
        c == (if is_scalar(v) {
            Some(v as char)
        } else {
            None
        }),
{
    char::from_u32(v)
}

/// `String::push` of std: `c` is appended to `text`.
#[verifier::external_body]
fn push_char(text: &mut String, c: char)
    ensures
        final(text)@ == old(text)@.push(c),
{
    text.push(c)
}

/// The character with code point `v`, or U+FFFD where there is none.
fn scalar_or_replacement(v: u32) -> (c: char)
    ensures
        c == (if is_scalar(v) {
            v as char
        } else {
            REPLACEMENT
        }),
{
    match char_from_u32(v) {
        Some(c) => c,
        None => REPLACEMENT,
    }
}

/// Decodes `units` as UTF-16, replacing every surrogate without a partner by
/// U+FFFD.
pub fn decode_lossy(units: &[u16]) -> (text: String)
    ensures
        text@ == lossy_text(units@),
{
    let mut text = String::new();
    let mut i: usize = 0;
    assert(units@.skip(0) =~= units@);
    while i < units.len()
        invariant
            i <= units.len(),
            text@ + lossy_text(units@.skip(i as int)) == lossy_text(units@),
        decreases units.len() - i,
    {
        let ghost rest = units@.skip(i as int);
        let unit: u16 = units[i];
        if 0xD800 <= unit && unit <= 0xDBFF && i + 1 < units.len() && 0xDC00 <= units[i + 1]
            && units[i + 1] <= 0xDFFF {
            let high: u32 = (unit - 0xD800) as u32;
            let low: u32 = (units[i + 1] - 0xDC00) as u32;
            let c = scalar_or_replacement(0x1_0000 + high * 0x400 + low);
            assert(rest.skip(2) =~= units@.skip(i + 2));
            push_char(&mut text, c);
            i += 2;
        } else {
            let c = if 0xD800 <= unit && unit <= 0xDFFF {
                REPLACEMENT
            } else {
                scalar_or_replacement(unit as u32)
            };
            assert(rest.skip(1) =~= units@.skip(i + 1));
            push_char(&mut text, c);
            i += 1;
        }
    }
    text
}

/// Decoding the first character's units gives that character back, and the
/// rest is decoded as if it stood alone.
proof fn lemma_decode_scalar_first(c: char, rest: Seq<u16>)
    ensures
        lossy_text(scalar_units(c) + rest) == seq![c] + lossy_text(rest),
{
    let units = scalar_units(c) + rest;
    let v = c as u32;
    char_is_scalar(c);
    char_u32_cast(c, v);
    if v < 0x1_0000 {
        assert(units.skip(1) =~= rest);
    } else {
        assert(units.skip(2) =~= rest);
    }
}

/// The encoding of a text is the units of its first character followed by the
/// encoding of the rest.
proof fn lemma_encoding_first(text: Seq<char>)
    requires
        text.len() > 0,
    ensures
        encoding(text) == scalar_units(text[0]) + encoding(text.drop_first()),
    decreases text.len(),
{
    if text.len() == 1 {
        assert(text.drop_last() =~= Seq::<char>::empty());
        assert(text.drop_first() =~= Seq::<char>::empty());
    } else {
        lemma_encoding_first(text.drop_last());
        assert(text.drop_last().drop_first() =~= text.drop_first().drop_last());
    }
}

/// Round trip: every text is what its encoding decodes to. A text holds
/// characters only, so its encoding has no surrogate without a partner and
/// nothing is replaced.
pub proof fn lemma_decode_encoding(text: Seq<char>)
    ensures
        lossy_text(encoding(text)) == text,
    decreases text.len(),
{
    if text.len() > 0 {
        lemma_encoding_first(text);
        lemma_decode_scalar_first(text[0], encoding(text.drop_first()));
        lemma_decode_encoding(text.drop_first());
    }
}

/// The other way round: code units are the encoding of the text that they
/// decode to exactly when they are well-formed. A surrogate without a
/// partner has become U+FFFD on the way and does not come back.
pub proof fn lemma_encoding_of_decoded(units: Seq<u16>)
    ensures
        encoding(lossy_text(units)) == units <==> well_formed(units),
    decreases units.len(),
{
    let text = lossy_text(units);
    if units.len() == 0 {
        assert(encoding(text) =~= units);
    } else {
        lemma_encoding_first(text);
        if starts_with_pair(units) {
            let rest = units.skip(2);
            assert(text.drop_first() =~= lossy_text(rest));
            lemma_encoding_of_decoded(rest);
            assert(seq![units[0], units[1]] + rest =~= units);
            if encoding(text) == units {
                assert(encoding(lossy_text(rest)) =~= encoding(text).skip(2));
            }
        } else {
            let rest = units.skip(1);
            assert(text.drop_first() =~= lossy_text(rest));
            lemma_encoding_of_decoded(rest);
            assert(seq![units[0]] + rest =~= units);
            if encoding(text) == units {
                assert(encoding(lossy_text(rest)) =~= encoding(text).skip(1));
            }
        }
    }
}

/// A text's encoding is well-formed UTF-16.
pub proof fn lemma_encoding_is_well_formed(text: Seq<char>)
    ensures
        well_formed(encoding(text)),
{
    lemma_decode_encoding(text);
    lemma_encoding_of_decoded(encoding(text));
}

/// The empty text has no code units, and nothing but the empty text has none.
pub proof fn lemma_encoding_is_empty(text: Seq<char>)
    ensures
        encoding(text).len() == 0 <==> text.len() == 0,
{
    if text.len() > 0 {
        lemma_encoding_first(text);
    }
}

} // verus!
