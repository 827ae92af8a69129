//! High-resolution progress bars drawn with Unicode block elements.
//!
//! A bar of `width` columns can show any filled length counted in eighths of
//! a column: whole columns are full blocks, the partial column is one of the
//! seven eighth blocks, and the rest is the fill character.

use vstd::prelude::*;

verus! {

/// The glyph of a full column.
pub const FULL_BLOCK: char = '█';

/// The glyph of a column filled to `k` eighths, `k < 8`; an empty column shows
/// the fill character.
pub open spec fn partial_glyph(k: int, fill: char) -> char {
    if k == 0 {
        fill
    } else {
        seq!['▏', '▎', '▍', '▌', '▋', '▊', '▉'][k - 1]
    }
}

/// Column `i` of a bar filled to `eighths` eighths of a column.
pub open spec fn bar_cell(i: int, eighths: int, fill: char) -> char {
    if i < eighths / 8 {
        FULL_BLOCK
    } else if i == eighths / 8 {
        partial_glyph(eighths % 8, fill)
    } else {
        fill
    }
}

fn partial_block(k: u64, fill: char) -> (r: char)
    requires
        k < 8,
    ensures
        r == partial_glyph(k as int, fill),
{
    match k {
        0 => fill,
        1 => '▏',
        2 => '▎',
        3 => '▍',
        4 => '▌',
        5 => '▋',
        6 => '▊',
        _ => '▉',
    }
}

/// The `width` glyphs of a bar filled to `eighths` eighths of a column: full
/// blocks for the whole columns, then, if any column is left, the eighth block
/// of the remainder (the fill character for none), then fill characters.
pub fn bar_glyphs(width: u32, eighths: u64, fill: char) -> (r: Vec<char>)
    requires
        eighths <= 8 * width,
    ensures
        r@.len() == width,
        forall|i: int| 0 <= i < width ==> #[trigger] r@[i] == bar_cell(i, eighths as int, fill),
{
    let whole: u64 = eighths / 8;
    let mut r: Vec<char> = Vec::new();
    let mut i: u32 = 0;
    while i < width
        invariant
            i <= width,
            whole == eighths / 8,
            eighths <= 8 * width,
            r@.len() == i,
            forall|j: int| 0 <= j < i ==> #[trigger] r@[j] == bar_cell(j, eighths as int, fill),
        decreases width - i,
    {
        let c = if (i as u64) < whole {
            FULL_BLOCK
        } else if i as u64 == whole {
            partial_block(eighths % 8, fill)
        } else {
            fill
        };
        r.push(c);
        i = i + 1;
    }
    r
}

} // verus!
