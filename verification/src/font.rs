//! The 8x8 bitmap font that text is drawn with.

use vstd::prelude::*;
use font8x8::UnicodeFonts;
use font8x8::BASIC_FONTS;

verus! {

/// A glyph: eight rows of eight pixels, top row first. Bit `n` of a row is
/// the pixel in column `n`, counted from the left.
pub type Glyph = [u8; 8];

/// Rows and columns of a glyph, and the horizontal advance per character.
pub const GLYPH_SIZE: u16 = 8;

/// The rows of the glyph that the font holds for `c`, or `None` where the
/// font has no glyph for it.
pub uninterp spec fn basic_glyph(c: char) -> Option<Seq<u8>>;

/// Whether the font has a glyph for `c`.
pub open spec fn has_glyph(c: char) -> bool {
    basic_glyph(c) is Some
}

/// Whether the pixel in row `row`, column `col` of a glyph is set.
pub open spec fn glyph_bit(rows: Seq<u8>, row: int, col: int) -> bool {
    (rows[row] >> (col as u8)) & 1u8 != 0u8
}

/// Looks a character up in the font.
///
/// Trusted: this is `font8x8::BASIC_FONTS.get`, a binary search in the
/// constant table of the 128 Basic Latin code points. It yields a glyph for
/// exactly the characters `U+0000` to `U+007F`, and for the same character
/// always the same rows, which `basic_glyph` names.
#[verifier::external_body]
pub(crate) fn lookup_glyph(c: char) -> (glyph: Option<Glyph>)
    ensures
        glyph is Some <==> (c as u32) < 128,
        basic_glyph(c) == match glyph {
            Some(rows) => Some(rows@),
            None => None::<Seq<u8>>,
        },
{
    BASIC_FONTS.get(c)
}

/// Reads one pixel of a glyph.
pub fn glyph_pixel(glyph: &Glyph, row: usize, col: usize) -> (set: bool)
    requires
        row < 8,
        col < 8,
    ensures
        set == glyph_bit(glyph@, row as int, col as int),
{
    let row_bits: u8 = glyph[row];
    (row_bits >> (col as u8)) & 1u8 != 0u8
}

} // verus!
