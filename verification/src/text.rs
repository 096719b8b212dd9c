//! Names: UTF-16 code units on disk, `String`s in memory.

use vstd::prelude::*;

verus! {

/// Whether `u` is the first half of a surrogate pair.
pub open spec fn is_high_surrogate(u: u16) -> bool {
    0xD800 <= u <= 0xDBFF
}

/// Whether `u` is the second half of a surrogate pair.
pub open spec fn is_low_surrogate(u: u16) -> bool {
    0xDC00 <= u <= 0xDFFF
}

/// The scalar value that the surrogate pair `hi`, `lo` encodes.
pub open spec fn surrogate_pair_value(hi: u16, lo: u16) -> int {
    0x1_0000 + (hi - 0xD800) * 0x400 + (lo - 0xDC00)
}

/// The text that a run of UTF-16 code units stands for. A surrogate pair is
/// one character; a surrogate without its partner becomes U+FFFD, the
/// replacement character; every other unit is the character of that value.
pub open spec fn utf16_lossy(units: Seq<u16>) -> Seq<char>
    decreases units.len(),
{
    if units.len() == 0 {
        Seq::empty()
    } else if is_high_surrogate(units[0]) && units.len() >= 2 && is_low_surrogate(units[1]) {
        seq![surrogate_pair_value(units[0], units[1]) as char] + utf16_lossy(units.skip(2))
    } else if is_high_surrogate(units[0]) || is_low_surrogate(units[0]) {
        seq!['\u{FFFD}'] + utf16_lossy(units.skip(1))
    } else {
        seq![units[0] as char] + utf16_lossy(units.skip(1))
    }
}

/// Decodes UTF-16 code units into a `String` with std's
/// `String::from_utf16_lossy`.
///
/// Trusted: the contract restates what std documents of that function, that
/// it decodes UTF-16 and puts U+FFFD in place of each unpaired surrogate.
#[verifier::external_body]
pub(crate) fn string_from_utf16_lossy(units: &[u16]) -> (text: String)
    ensures
        text@ == utf16_lossy(units@),
{
    String::from_utf16_lossy(units)
}

/// A name in a field of fixed size: 255 code units, of which the first
/// `length` are the name.
#[derive(Debug, Clone, Copy)]
pub struct UnicodeString255 {
    pub length: u16,
    pub unicode: [u16; 255],
}

impl UnicodeString255 {
    /// The code units of the name: the first `length` units of the field, or
    /// all of them where `length` is more than the field holds.
    pub open spec fn name_units(&self) -> Seq<u16> {
        if self.length <= 255 {
            self.unicode@.take(self.length as int)
        } else {
            self.unicode@
        }
    }

    /// The code units of the name.
    pub fn units(&self) -> (name: Vec<u16>)
        ensures
            name@ == self.name_units(),
    {
        let count: usize = if self.length <= 255 {
            self.length as usize
        } else {
            255
        };
        let mut name: Vec<u16> = Vec::with_capacity(count);
        let mut i: usize = 0;
        while i < count
            invariant
                i <= count <= 255,
                name@ == self.unicode@.take(i as int),
            decreases count - i,
        {
            name.push(self.unicode[i]);
            i += 1;
        }
        assert(self.unicode@.take(255) == self.unicode@);
        name
    }

    /// The name as text.
    pub fn to_text(&self) -> (text: String)
        ensures
            text@ == utf16_lossy(self.name_units()),
    {
        let name = self.units();
        string_from_utf16_lossy(name.as_slice())
    }
}

} // verus!
