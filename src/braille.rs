//! Braille cells as 8-dot bitmaps.

use vstd::prelude::*;

verus! {

/// Base of the Unicode braille patterns block (the empty cell).
pub const BRAILLE_BASE: u32 = 0x2800;

/// The dot permutation: `v` read as a bitmap whose bits run down the left
/// column (bits 0..3) and then down the right column (bits 4..7), rearranged
/// into the bit order of the braille block, where the bottom row holds bits
/// 6 and 7.
pub open spec fn dot_order(v: u8) -> u8 {
    (v & 0b1000_0111) | ((v & 0b0000_1000) << 3u8) | ((v & 0b0111_0000) >> 1u8)
}

/// Code point of the braille cell showing bitmap `v`.
pub open spec fn braille_code(v: u8) -> int {
    BRAILLE_BASE + dot_order(v)
}

/// The braille cell showing bitmap `v`, as a `char`.
pub open spec fn braille_char(v: u8) -> char {
    (braille_code(v) as u32) as char
}

/// Relies on char::from_u32: it returns the char of any value below the
/// surrogate range, and that char converts back to the same value.
#[verifier::external_body]
fn char_of(v: u32) -> (r: Option<char>)
    ensures
        v < 0xD800 ==> r is Some,
        r matches Some(c) ==> c as u32 == v,
{
    char::from_u32(v)
}

/// The braille cell showing bitmap `v` (bit 0 is the top-left dot, bit 3 the
/// bottom-left, bit 4 the top-right and bit 7 the bottom-right).
pub fn braille(v: u8) -> (r: char)
    ensures
        r as u32 == braille_code(v),
        r == braille_char(v),
{
    let d: u8 = (v & 0b1000_0111) | ((v & 0b0000_1000) << 3u8) | ((v & 0b0111_0000) >> 1u8);
    match char_of(BRAILLE_BASE + d as u32) {
        Some(c) => {
            proof {
                vstd::utf8::char_u32_cast(c, c as u32);
            }
            c
        },
        None => ' ',
    }
}

} // verus!
