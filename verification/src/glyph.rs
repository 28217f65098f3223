//! Cell glyph classification for the chart overlay pass, and Braille dot cells.
use vstd::prelude::*;
use crate::text::str_eq;

verus! {

/// Candle body/wick glyphs drawn by the candlestick widget.
pub open spec fn candle_glyph(sym: Seq<char>) -> bool {
    sym == "┃"@ || sym == "│"@ || sym == "╽"@ || sym == "╿"@ || sym == "╻"@ || sym == "╷"@
        || sym == "╹"@ || sym == "╵"@
}

/// Cells an overlay may paint over freely (blank, no-break space, dot, `x`).
pub open spec fn empty_glyph(sym: Seq<char>) -> bool {
    sym.len() == 0 || sym == " "@ || sym == "\u{00a0}"@ || sym == "·"@ || sym == "x"@
}

/// Candle body/wick glyphs from the candlestick widget (`symbols.rs`).
pub fn is_candle_glyph(sym: &str) -> (b: bool)
    ensures
        b == candle_glyph(sym@),
{
    str_eq(sym, "┃") // BODY
     || str_eq(sym, "│") // WICK
     || str_eq(sym, "╽") // UP
     || str_eq(sym, "╿") // DOWN
     || str_eq(sym, "╻") // HALF_BODY_BOTTOM
     || str_eq(sym, "╷") // HALF_WICK_BOTTOM
     || str_eq(sym, "╹") // HALF_BODY_TOP
     || str_eq(sym, "╵") // HALF_WICK_TOP
}

/// Whether `sym` is a blank-like cell an overlay may paint over.
pub fn is_empty_glyph(sym: &str) -> (b: bool)
    ensures
        b == empty_glyph(sym@),
{
    sym.unicode_len() == 0 || str_eq(sym, " ") || str_eq(sym, "\u{00a0}") || str_eq(sym, "·")
        || str_eq(sym, "x")
}

/// `char::from_u32` (std): the character with scalar value `u`, if `u` is a scalar value.
#[verifier::external_body]
fn char_from_scalar(u: u32) -> (r: Option<char>)
    ensures
        (u < 0xd800 || (0xe000 <= u && u <= 0x10ffff)) ==> r == Some(u as char),
        !(u < 0xd800 || (0xe000 <= u && u <= 0x10ffff)) ==> r is None,
{
    char::from_u32(u)
}

/// Braille cell (U+2800 block) with dot bits `mask`.
pub fn braille_char(mask: u8) -> (c: char)
    ensures
        c == ((0x2800 + mask) as u32) as char,
{
    match char_from_scalar(0x2800 + mask as u32) {
        Some(c) => c,
        None => '\u{2800}',
    }
}

} // verus!
