//! Text in the form the window system takes: UTF-16 code units with a
//! terminating zero.

use vstd::prelude::*;

verus! {

/// The UTF-16 code units of one character: the scalar value itself below
/// `0x10000`, a high and a low surrogate above.
pub open spec fn utf16_of_char(c: char) -> Seq<u16> {
    let scalar = c as u32;
    if scalar < 0x10000 {
        seq![scalar as u16]
    } else {
        seq![
            (0xD800 + (scalar - 0x10000) / 0x400) as u16,
            (0xDC00 + (scalar - 0x10000) % 0x400) as u16,
        ]
    }
}

/// The UTF-16 code units of a text, character by character.
pub open spec fn utf16(text: Seq<char>) -> Seq<u16>
    decreases text.len(),
{
    if text.len() == 0 {
        Seq::empty()
    } else {
        utf16(text.drop_last()) + utf16_of_char(text.last())
    }
}

/// The native form of a text: its UTF-16 code units, then a zero.
pub open spec fn native_string(text: Seq<char>) -> Seq<u16> {
    utf16(text).push(0u16)
}

/// Converts `text` to its native form.
pub fn to_utf16(text: &str) -> (units: Vec<u16>)
    ensures
        units@ == native_string(text@),
{
    let mut units: Vec<u16> = Vec::new();
    for c in it: text.chars()
        invariant
            it.seq() == text@,
            units@ == utf16(text@.take(it.index() as int)),
    {
        let scalar: u32 = c as u32;
        if scalar < 0x10000 {
            units.push(scalar as u16);
        } else {
            let offset: u32 = scalar - 0x10000;
            units.push((0xD800 + offset / 0x400) as u16);
            units.push((0xDC00 + offset % 0x400) as u16);
        }
        proof {
            let next = text@.take(it.index() + 1);
            assert(next.drop_last() == text@.take(it.index() as int));
            assert(next.last() == c);
        }
    }
    assert(text@.take(text@.len() as int) == text@);
    units.push(0u16);
    units
}

/// What converts itself to the native form of a text.
pub trait ToUTF16String {
    /// The text that is converted.
    spec fn text(&self) -> Seq<char>;

    /// The native form of the text.
    fn to_utf16(&self) -> (units: Vec<u16>)
        ensures
            units@ == native_string(self.text()),
    ;
}

impl ToUTF16String for String {
    open spec fn text(&self) -> Seq<char> {
        self@
    }

    fn to_utf16(&self) -> (units: Vec<u16>) {
        to_utf16(self.as_str())
    }
}

/// The native form ends in a zero, and holds one or two units for each
/// character before it.
pub proof fn lemma_native_string_shape(text: Seq<char>)
    ensures
        native_string(text).last() == 0u16,
        text.len() + 1 <= native_string(text).len() <= 2 * text.len() + 1,
{
    lemma_utf16_len(text);
}

/// Each character gives one or two code units.
pub proof fn lemma_utf16_len(text: Seq<char>)
    ensures
        text.len() <= utf16(text).len() <= 2 * text.len(),
    decreases text.len(),
{
    if text.len() > 0 {
        lemma_utf16_len(text.drop_last());
    }
}

} // verus!
