//! UTF-16, the encoding of host strings.

use vstd::prelude::*;

verus! {

broadcast use vstd::utf8::char_is_scalar;

/// The UTF-16 code units of one character: the character's scalar value
/// itself below `0x10000`, else a high and a low surrogate that carry ten bits
/// each of the value less `0x10000`.
pub open spec fn utf16_char(c: char) -> Seq<u16> {
    let scalar = c as u32;
    if scalar < 0x1_0000 {
        seq![scalar as u16]
    } else {
        seq![
            (0xD800 + (scalar - 0x1_0000) / 0x400) as u16,
            (0xDC00 + (scalar - 0x1_0000) % 0x400) as u16,
        ]
    }
}

/// The UTF-16 code units of a text: those of its characters, in order.
pub open spec fn utf16(text: Seq<char>) -> Seq<u16>
    decreases text.len(),
{
    if text.len() == 0 {
        Seq::empty()
    } else {
        utf16(text.drop_last()) + utf16_char(text.last())
    }
}

/// Encodes `text` as UTF-16.
pub fn encode_utf16(text: &str) -> (units: Vec<u16>)
    ensures
        units@ == utf16(text@),
{
    let mut units: Vec<u16> = Vec::new();
    for c in it: text.chars()
        invariant
            it.seq() == text@,
            units@ == utf16(text@.take(it.index() as int)),
    {
        proof {
            let done = text@.take(it.index() as int);
            let next = text@.take(it.index() + 1);
            assert(next.drop_last() =~= done);
            assert(next.last() == c);
        }
        let scalar: u32 = c as u32;
        if scalar < 0x1_0000 {
            units.push(scalar as u16);
        } else {
            let rest: u32 = scalar - 0x1_0000;
            units.push((0xD800 + rest / 0x400) as u16);
            units.push((0xDC00 + rest % 0x400) as u16);
        }
        assert(units@ =~= utf16(text@.take(it.index() as int)) + utf16_char(c));
    }
    assert(text@.take(text@.len() as int) =~= text@);
    units
}

} // verus!
