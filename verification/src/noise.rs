//! The random draws behind the glitch mode.
//!
//! Nothing is known of a draw beyond its range, so every function that
//! consumes one is verified for all values it may take.

use vstd::prelude::*;
use rand::Rng;
use rand::rngs::StdRng;
use crate::pixel::Rgb;

verus! {

/// The generator type of the `rand` crate that the library draws from.
#[verifier::external_type_specification]
#[verifier::external_body]
pub struct ExStdRng(rand::rngs::StdRng);

/// Calls `rand::Rng::gen_ratio`, which returns `true` with probability
/// `numerator / denominator`. Assumed: the call returns for every ratio that
/// is at most one, always `true` for a ratio of one and always `false` for a
/// ratio of zero.
#[verifier::external_body]
fn draw_ratio(rng: &mut StdRng, numerator: u32, denominator: u32) -> (hit: bool)
    requires
        denominator > 0,
        numerator <= denominator,
    ensures
        numerator == denominator ==> hit,
        numerator == 0 ==> !hit,
{
    rng.gen_ratio(numerator, denominator)
}

/// Calls `rand::Rng::gen` for a `u8`. Nothing is assumed of the byte.
#[verifier::external_body]
fn draw_byte(rng: &mut StdRng) -> (byte: u8) {
    rng.gen::<u8>()
}

/// Calls `rand::Rng::gen_range` on `0..bound`. Assumed: the result lies in
/// that range.
#[verifier::external_body]
fn draw_below(rng: &mut StdRng, bound: usize) -> (index: usize)
    requires
        bound > 0,
    ensures
        index < bound,
{
    rng.gen_range(0..bound)
}

/// What chance decided for one cell in glitch mode.
#[derive(Clone, Copy, Debug, PartialEq, Eq, Structural)]
pub struct GlitchDraw {
    /// The colour that replaces the cell's own, if one does.
    pub color: Option<Rgb>,
    /// The position in the charset of the glyph that replaces the cell's
    /// own, if one does.
    pub glyph: Option<usize>,
}

impl GlitchDraw {
    /// The draw that replaces nothing.
    pub open spec fn quiet() -> GlitchDraw {
        GlitchDraw { color: None, glyph: None }
    }

    /// The draw that replaces nothing.
    pub fn none() -> (d: GlitchDraw)
        ensures
            d == GlitchDraw::quiet(),
    {
        GlitchDraw { color: None, glyph: None }
    }
}

/// One chance in twenty: a random colour. Nothing is known of whether one
/// comes, nor of the colour that comes.
pub fn draw_color(rng: &mut StdRng) -> (color: Option<Rgb>) {
    if draw_ratio(rng, 1, 20) {
        let r: u8 = draw_byte(rng);
        let g: u8 = draw_byte(rng);
        let b: u8 = draw_byte(rng);
        Some(Rgb { r, g, b })
    } else {
        None
    }
}

/// One chance in fifty: a random position in a charset of `charset_len`
/// glyphs. An empty charset has no position to give.
pub fn draw_glyph(rng: &mut StdRng, charset_len: usize) -> (glyph: Option<usize>)
    ensures
        glyph matches Some(k) ==> k < charset_len,
        charset_len == 0 ==> glyph is None,
{
    if charset_len > 0 && draw_ratio(rng, 1, 50) {
        Some(draw_below(rng, charset_len))
    } else {
        None
    }
}

} // verus!
