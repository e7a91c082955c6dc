//! The glyph mapper: from a luminance to a position in a charset.

use vstd::prelude::*;
use crate::charset::{chars_of, CharSet};

verus! {

/// Luminance at which the scale of glyph positions ends, in thousandths:
/// a luminance of `l` steps lies at `l / 256` of the charset's length.
pub const LUM_RANGE_MILLI: u32 = 256_000;

/// The position of a luminance in a charset of `charset_len` glyphs:
/// `luminance / 256 * charset_len`, fractions dropped, and at most the last
/// position.
pub open spec fn map_luminance_spec(lum_milli: int, charset_len: int) -> int
    recommends
        lum_milli >= 0,
        charset_len >= 1,
{
    if lum_milli * charset_len / 256_000 >= charset_len {
        charset_len - 1
    } else {
        lum_milli * charset_len / 256_000
    }
}

/// The position lies within the charset.
pub proof fn lemma_map_luminance_in_range(lum_milli: int, charset_len: int)
    requires
        lum_milli >= 0,
        charset_len >= 1,
    ensures
        0 <= map_luminance_spec(lum_milli, charset_len) <= charset_len - 1,
{
    assert(lum_milli * charset_len >= 0) by (nonlinear_arith)
        requires
            lum_milli >= 0,
            charset_len >= 1,
    ;
    vstd::arithmetic::div_mod::lemma_div_pos_is_pos(lum_milli * charset_len, 256_000);
}

/// A higher luminance never maps to a lower position.
pub proof fn lemma_map_luminance_monotonic(lower: int, higher: int, charset_len: int)
    requires
        0 <= lower <= higher,
        charset_len >= 1,
    ensures
        map_luminance_spec(lower, charset_len) <= map_luminance_spec(higher, charset_len),
{
    assert(lower * charset_len <= higher * charset_len) by (nonlinear_arith)
        requires
            lower <= higher,
            charset_len >= 1,
    ;
    vstd::arithmetic::div_mod::lemma_div_is_ordered(
        lower * charset_len,
        higher * charset_len,
        256_000,
    );
}

/// The position of a luminance, in thousandths, in a charset of
/// `charset_len` glyphs.
pub fn map_luminance(lum_milli: u32, charset_len: usize) -> (index: usize)
    requires
        charset_len >= 1,
    ensures
        index == map_luminance_spec(lum_milli as int, charset_len as int),
        index < charset_len,
{
    proof {
        lemma_map_luminance_in_range(lum_milli as int, charset_len as int);
        assert(0 <= lum_milli * charset_len <= 0xffff_ffff * 0xffff_ffff_ffff_ffff)
            by (nonlinear_arith)
            requires
                0 <= lum_milli <= 0xffff_ffff,
                0 <= charset_len <= 0xffff_ffff_ffff_ffff,
        ;
    }
    let scaled: u128 = (lum_milli as u128) * (charset_len as u128) / (LUM_RANGE_MILLI as u128);
    if scaled >= charset_len as u128 {
        charset_len - 1
    } else {
        scaled as usize
    }
}

/// The glyphs that are in use: those of the set, from last to first where
/// the order is inverted.
pub open spec fn active_glyphs_spec(set: CharSet, invert: bool) -> Seq<char> {
    if invert {
        set.glyphs().reverse()
    } else {
        set.glyphs()
    }
}

/// The glyphs that are in use.
pub fn active_glyphs(set: CharSet, invert: bool) -> (glyphs: Vec<char>)
    ensures
        glyphs@ == active_glyphs_spec(set, invert),
        glyphs@.len() == set.glyphs().len(),
        glyphs@.len() >= 1,
{
    let forward: Vec<char> = chars_of(set.get_chars());
    if !invert {
        return forward;
    }
    let n: usize = forward.len();
    let mut glyphs: Vec<char> = Vec::new();
    let mut i: usize = 0;
    while i < n
        invariant
            n == forward@.len(),
            i <= n,
            glyphs@.len() == i,
            forall|k: int| 0 <= k < i ==> glyphs@[k] == forward@[n - 1 - k],
        decreases n - i,
    {
        glyphs.push(forward[n - 1 - i]);
        i += 1;
    }
    assert(glyphs@ =~= forward@.reverse());
    glyphs
}

} // verus!
