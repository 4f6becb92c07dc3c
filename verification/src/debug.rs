//! Debug messages for the Windows debugger, which takes NUL-terminated
//! UTF-16 text.

use vstd::prelude::*;

verus! {

/// The UTF-16 code units of one character: itself below U+10000, else a
/// surrogate pair.
pub open spec fn utf16_units(c: char) -> Seq<u16> {
    let v = c as u32 as int;
    if v < 0x1_0000 {
        seq![v as u16]
    } else {
        seq![(0xD800 + (v - 0x1_0000) / 0x400) as u16, (0xDC00 + (v - 0x1_0000) % 0x400) as u16]
    }
}

/// The UTF-16 code units of a text.
pub open spec fn utf16(text: Seq<char>) -> Seq<u16>
    decreases text.len(),
{
    if text.len() == 0 {
        Seq::empty()
    } else {
        utf16(text.drop_last()) + utf16_units(text.last())
    }
}

/// A debug message as the debugger takes it: its UTF-16 code units, then a
/// NUL.
pub fn encode(source: &str) -> (units: Vec<u16>)
    ensures
        units@ == utf16(source@).push(0u16),
{
    let mut units: Vec<u16> = Vec::new();
    for c in it: source.chars()
        invariant
            it.seq() == source@,
            units@ == utf16(source@.take(it.index() as int)),
    {
        let ghost before = source@.take(it.index() as int);
        let v = c as u32;
        if v < 0x1_0000 {
            units.push(v as u16);
        } else {
            let w = v - 0x1_0000;
            units.push((0xD800 + w / 0x400) as u16);
            units.push((0xDC00 + w % 0x400) as u16);
        }
        proof {
            let after = source@.take(it.index() + 1);
            assert(after.drop_last() =~= before);
            assert(units@ =~= utf16(after));
        }
    }
    assert(source@.take(source@.len() as int) =~= source@);
    units.push(0);
    units
}

} // verus!
