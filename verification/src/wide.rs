//! Wide strings: text as the platform takes it, in UTF-16 code units with
//! a terminating zero.

use vstd::prelude::*;

verus! {

/// The UTF-16 code units of one character: the character itself below
/// U+10000, a high and a low surrogate above.
pub open spec fn char_units(c: char) -> Seq<u16> {
    let code = c as u32;
    if code < 0x1_0000 {
        seq![code as u16]
    } else {
        seq![
            (0xD800 + (code - 0x1_0000) / 0x400) as u16,
            (0xDC00 + (code - 0x1_0000) % 0x400) as u16,
        ]
    }
}

/// The UTF-16 code units of a text: those of its characters, in order.
pub open spec fn utf16(text: Seq<char>) -> Seq<u16>
    decreases text.len(),
{
    if text.len() == 0 {
        Seq::empty()
    } else {
        utf16(text.drop_last()) + char_units(text.last())
    }
}

/// A text as a lookup argument of the platform: nothing at all for the
/// empty text, which the platform reads as "any"; otherwise its UTF-16
/// code units and a terminating zero.
pub open spec fn wide_string(text: Seq<char>) -> Option<Seq<u16>> {
    if text.len() == 0 {
        None
    } else {
        Some(utf16(text) + seq![0u16])
    }
}

/// The text that `String::from_utf16_lossy` reads from UTF-16 code units:
/// decoded as UTF-16, with U+FFFD in place of every unit that is no part
/// of a character.
pub uninterp spec fn utf16_lossy(units: Seq<u16>) -> Seq<char>;

/// `String::from_utf16_lossy` of the standard library. It is taken on
/// trust that its result depends on the code units alone, which its
/// documentation describes; nothing is claimed of what the text is.
pub assume_specification[ String::from_utf16_lossy ](v: &[u16]) -> (text: String)
    ensures
        text@ == utf16_lossy(v@),
;

/// Appends the UTF-16 code units of `c` to `units`.
pub fn push_char_units(units: &mut Vec<u16>, c: char)
    ensures
        final(units)@ == old(units)@ + char_units(c),
{
    let code: u32 = c as u32;
    if code < 0x1_0000 {
        units.push(code as u16);
    } else {
        let rest: u32 = code - 0x1_0000;
        units.push((0xD800 + rest / 0x400) as u16);
        units.push((0xDC00 + rest % 0x400) as u16);
    }
    assert(units@ =~= old(units)@ + char_units(c));
}

/// Encodes a text for the platform.
pub fn to_wide_string(text: &str) -> (wide: Option<Vec<u16>>)
    ensures
        wide.is_some() == (text@.len() > 0),
        match wide {
            Some(units) => Some(units@) == wide_string(text@),
            None => wide_string(text@).is_none(),
        },
{
    if text.is_empty() {
        return None;
    }
    let mut units: Vec<u16> = Vec::new();
    assert(text@.take(0) =~= Seq::<char>::empty());
    for c in walk: text.chars()
        invariant
            walk.seq() == text@,
            units@ == utf16(text@.take(walk.index() as int)),
    {
        let ghost done = walk.index() as int;
        assert(text@.take(done + 1).drop_last() =~= text@.take(done));
        assert(text@.take(done + 1).last() == c);
        push_char_units(&mut units, c);
    }
    assert(text@.take(text@.len() as int) =~= text@);
    units.push(0u16);
    Some(units)
}

} // verus!
