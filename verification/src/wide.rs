//! Wide strings: text as the UTF-16 code units that the Win32 API takes and
//! gives.

use vstd::prelude::*;
use vstd::std_specs::iter::IteratorSpec;

verus! {

/// The character that stands for a code unit that cannot be decoded.
pub const REPLACEMENT_CHARACTER: char = '\u{FFFD}';

/// True for the first unit of a surrogate pair.
pub open spec fn is_high_surrogate(unit: u16) -> bool {
    0xD800 <= unit <= 0xDBFF
}

/// True for the second unit of a surrogate pair.
pub open spec fn is_low_surrogate(unit: u16) -> bool {
    0xDC00 <= unit <= 0xDFFF
}

/// The code units of one character: the character itself below U+10000, and
/// above it a high and a low surrogate that hold ten bits each of what is
/// left after taking 0x10000 away.
pub open spec fn utf16_of_char(c: char) -> Seq<u16> {
    let scalar = c as u32;
    if scalar < 0x1_0000 {
        seq![scalar as u16]
    } else {
        seq![
            (0xD800 + (scalar - 0x1_0000) / 0x400) as u16,
            (0xDC00 + (scalar - 0x1_0000) % 0x400) as u16,
        ]
    }
}

/// The code units of a text: those of its characters, one after the other.
pub open spec fn utf16_of(text: Seq<char>) -> Seq<u16>
    decreases text.len(),
{
    if text.len() == 0 {
        Seq::empty()
    } else {
        utf16_of_char(text[0]) + utf16_of(text.skip(1))
    }
}

/// True if the units start with a high surrogate and a low one behind it.
pub open spec fn starts_with_pair(units: Seq<u16>) -> bool {
    units.len() >= 2 && is_high_surrogate(units[0]) && is_low_surrogate(units[1])
}

/// The number of units that make the first character: 2 for a surrogate pair,
/// 1 for anything else.
pub open spec fn first_len(units: Seq<u16>) -> int {
    if starts_with_pair(units) {
        2
    } else {
        1
    }
}

/// The first character of units that are not empty: the unit itself if it is
/// no surrogate, the character of a surrogate pair, and the replacement
/// character for a surrogate without its partner.
pub open spec fn first_char(units: Seq<u16>) -> char {
    if !is_high_surrogate(units[0]) && !is_low_surrogate(units[0]) {
        units[0] as char
    } else if starts_with_pair(units) {
        (0x1_0000 + (units[0] - 0xD800) * 0x400 + (units[1] - 0xDC00)) as char
    } else {
        REPLACEMENT_CHARACTER
    }
}

/// The text that the units stand for, with the replacement character for
/// each surrogate that has no partner.
pub open spec fn utf16_lossy(units: Seq<u16>) -> Seq<char>
    decreases units.len(),
{
    if units.len() == 0 {
        Seq::empty()
    } else {
        seq![first_char(units)] + utf16_lossy(units.skip(first_len(units)))
    }
}

/// `char::from_u32` of the standard library, believed without proof: it
/// gives the character with the given number where there is one, which is
/// for every number up to 0x10FFFF that is no surrogate, and `None`
/// otherwise.
pub assume_specification[ char::from_u32 ](i: u32) -> (c: Option<char>)
    ensures
        (i <= 0xD7FF || 0xE000 <= i <= 0x10_FFFF) ==> c == Some(i as char),
        !(i <= 0xD7FF || 0xE000 <= i <= 0x10_FFFF) ==> c is None,
;

/// `String::push` of the standard library, believed without proof: it
/// appends the character to the end of the string.
pub assume_specification[ String::push ](text: &mut String, ch: char)
    ensures
        final(text)@ == old(text)@.push(ch),
;

/// The code units of a text continue those of its start.
pub proof fn lemma_utf16_of_concat(head: Seq<char>, tail: Seq<char>)
    ensures
        utf16_of(head + tail) == utf16_of(head) + utf16_of(tail),
    decreases head.len(),
{
    if head.len() == 0 {
        assert(head + tail =~= tail);
        assert(utf16_of(head) + utf16_of(tail) =~= utf16_of(tail));
    } else {
        lemma_utf16_of_concat(head.skip(1), tail);
        assert((head + tail).skip(1) =~= head.skip(1) + tail);
        assert(utf16_of_char(head[0]) + (utf16_of(head.skip(1)) + utf16_of(tail)) =~= (utf16_of_char(
            head[0],
        ) + utf16_of(head.skip(1))) + utf16_of(tail));
    }
}

/// A character more at the end of a text adds its code units at the end.
pub proof fn lemma_utf16_of_push(text: Seq<char>, c: char)
    ensures
        utf16_of(text.push(c)) == utf16_of(text) + utf16_of_char(c),
{
    let one = seq![c];
    assert(utf16_of(one) =~= utf16_of_char(c)) by {
        assert(utf16_of(one.skip(1)) =~= Seq::<u16>::empty());
    }
    assert(text.push(c) =~= text + one);
    lemma_utf16_of_concat(text, one);
}

/// Appends the code units of one character.
pub fn push_utf16(wide: &mut Vec<u16>, c: char)
    ensures
        final(wide)@ == old(wide)@ + utf16_of_char(c),
{
    let scalar = c as u32;
    if scalar < 0x1_0000 {
        wide.push(scalar as u16);
        assert(wide@ =~= old(wide)@ + utf16_of_char(c));
    } else {
        let rest = scalar - 0x1_0000;
        wide.push((0xD800 + rest / 0x400) as u16);
        wide.push((0xDC00 + rest % 0x400) as u16);
        assert(wide@ =~= old(wide)@ + utf16_of_char(c));
    }
}

/// The text as UTF-16 code units.
pub fn encode_wide(text: &str) -> (wide: Vec<u16>)
    ensures
        wide@ == utf16_of(text@),
{
    let mut wide: Vec<u16> = Vec::new();
    let mut chars = text.chars();
    let ghost mut done: Seq<char> = Seq::empty();
    loop
        invariant
            chars.obeys_prophetic_iter_laws(),
            chars.decrease() is Some,
            done + chars.remaining() == text@,
            wide@ == utf16_of(done),
        decreases chars.decrease()->0,
    {
        match chars.next() {
            Some(c) => {
                proof {
                    lemma_utf16_of_push(done, c);
                    done = done.push(c);
                }
                push_utf16(&mut wide, c);
            },
            None => {
                assert(done =~= text@);
                return wide;
            },
        }
    }
}

/// The text as UTF-16 code units with a terminating 0 after them, as the
/// Win32 API takes a string.
pub fn encode_wide_null(text: &str) -> (wide: Vec<u16>)
    ensures
        wide@ == utf16_of(text@).push(0),
{
    let mut wide = encode_wide(text);
    wide.push(0);
    wide
}

/// The text of UTF-16 code units, with the replacement character for each
/// surrogate that has no partner.
pub fn wchar_to_string(wchar: &[u16]) -> (text: String)
    ensures
        text@ == utf16_lossy(wchar@),
{
    let mut text = String::new();
    let mut at: usize = 0;
    assert(wchar@.skip(0) =~= wchar@);
    while at < wchar.len()
        invariant
            at <= wchar.len(),
            text@ + utf16_lossy(wchar@.skip(at as int)) == utf16_lossy(wchar@),
        decreases wchar.len() - at,
    {
        let ghost before = text@;
        let ghost rest = wchar@.skip(at as int);
        let unit = wchar[at];
        let step: usize;
        if unit < 0xD800 || unit > 0xDFFF {
            text.push(char::from_u32(unit as u32).unwrap());
            step = 1;
        } else if unit <= 0xDBFF && at + 1 < wchar.len() && 0xDC00 <= wchar[at + 1] && wchar[at
            + 1] <= 0xDFFF {
            let high = (unit - 0xD800) as u32;
            let low = (wchar[at + 1] - 0xDC00) as u32;
            text.push(char::from_u32(0x1_0000 + high * 0x400 + low).unwrap());
            step = 2;
        } else {
            text.push(REPLACEMENT_CHARACTER);
            step = 1;
        }
        proof {
            assert(rest.len() >= 2 ==> rest[1] == wchar@[at + 1]);
            assert(rest.skip(first_len(rest)) =~= wchar@.skip(at + step));
            assert(before.push(first_char(rest)) + utf16_lossy(rest.skip(first_len(rest))) =~= before
                + utf16_lossy(rest));
        }
        at += step;
    }
    assert(text@ + utf16_lossy(wchar@.skip(at as int)) =~= text@);
    text
}

/// Decoding the code units of a text gives the text back.
pub proof fn lemma_utf16_round_trip(text: Seq<char>)
    ensures
        utf16_lossy(utf16_of(text)) == text,
    decreases text.len(),
{
    if text.len() > 0 {
        let c = text[0];
        let units = utf16_of(text);
        let tail = utf16_of(text.skip(1));
        lemma_utf16_round_trip(text.skip(1));
        assert(units == utf16_of_char(c) + tail);
        assert(first_char(units) == c && first_len(units) == utf16_of_char(c).len()) by {
            let scalar = c as u32;
            vstd::utf8::char_is_scalar(c);
            vstd::utf8::char_u32_cast(c, scalar);
            if scalar < 0x1_0000 {
                assert(units[0] == scalar as u16);
            } else {
                let rest = (scalar - 0x1_0000) as int;
                assert(units[0] == 0xD800 + rest / 0x400);
                assert(units[1] == 0xDC00 + rest % 0x400);
                assert(0x1_0000 + (units[0] - 0xD800) * 0x400 + (units[1] - 0xDC00) == scalar);
            }
        }
        assert(units.skip(first_len(units)) =~= tail);
        assert(seq![c] + text.skip(1) =~= text);
    }
}

/// Decoding gives one character for every one or two code units.
pub proof fn lemma_utf16_lossy_len(units: Seq<u16>)
    ensures
        utf16_lossy(units).len() <= units.len() <= 2 * utf16_lossy(units).len(),
    decreases units.len(),
{
    if units.len() > 0 {
        lemma_utf16_lossy_len(units.skip(first_len(units)));
    }
}

/// A text takes one or two code units for every character, and one for each
/// where no character is above U+FFFF.
pub proof fn lemma_utf16_len(text: Seq<char>)
    ensures
        text.len() <= utf16_of(text).len() <= 2 * text.len(),
        (forall|i: int| 0 <= i < text.len() ==> (#[trigger] text[i]) as u32 <= 0xFFFF)
            ==> utf16_of(text).len() == text.len(),
    decreases text.len(),
{
    if text.len() > 0 {
        lemma_utf16_len(text.skip(1));
        assert(forall|i: int| 0 <= i < text.skip(1).len() ==> text.skip(1)[i] == text[i + 1]);
    }
}

} // verus!
