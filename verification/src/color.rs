//! The colour modes: from a sample, its place in the grid and the frame
//! counter to a display colour.
//!
//! All of it is exact arithmetic on integers. Luminance comes in thousandths
//! of a channel step, and every formula is a quotient of two integers that is
//! cut off towards zero and kept within `0..=255`.

use vstd::prelude::*;
use rand::rngs::StdRng;
use crate::mode::ArtMode;
use crate::noise::draw_color;
use crate::pixel::Rgb;
use crate::sample::BlockSample;

verus! {

/// The channel value of the fraction `num / den`: cut off towards zero, then
/// kept within `0..=255`.
pub open spec fn quantize_spec(num: int, den: int) -> int
    recommends
        den > 0,
{
    if num <= 0 {
        0
    } else if num / den > 255 {
        255
    } else {
        num / den
    }
}

/// Luminance in whole channel steps: the nearest integer, at most 255.
pub open spec fn rounded_luminance(lum_milli: int) -> int {
    quantize_spec(lum_milli + 500, 1000)
}

/// Grey of the luminance on all three channels.
pub open spec fn grayscale_spec(lum_milli: int) -> (int, int, int) {
    let l = rounded_luminance(lum_milli);
    (l, l, l)
}

/// Green of the luminance.
pub open spec fn matrix_spec(lum_milli: int) -> (int, int, int) {
    (0, rounded_luminance(lum_milli), 0)
}

/// Amber tint: red of the luminance, green at 0.69 of it.
pub open spec fn amber_spec(lum_milli: int) -> (int, int, int) {
    let l = rounded_luminance(lum_milli);
    (l, quantize_spec(69 * l, 100), 0)
}

/// Heat map in four segments of 64 luminance steps: blue to cyan, cyan to
/// green, green to yellow, yellow to red. One channel moves by four per
/// luminance step in each segment.
pub open spec fn thermal_spec(lum_milli: int) -> (int, int, int) {
    if lum_milli < 64_000 {
        (0, quantize_spec(4 * lum_milli, 1000), 255)
    } else if lum_milli < 128_000 {
        (0, 255, quantize_spec(255_000 - 4 * (lum_milli - 64_000), 1000))
    } else if lum_milli < 192_000 {
        (quantize_spec(4 * (lum_milli - 128_000), 1000), 255, 0)
    } else {
        (255, quantize_spec(255_000 - 4 * (lum_milli - 192_000), 1000), 0)
    }
}

/// Three segments of 85 luminance steps: purple shadows, pink midtones, cyan
/// highlights. Within a segment the colour moves linearly with
/// `(luminance - segment start) / 85`.
pub open spec fn neon_spec(lum_milli: int) -> (int, int, int) {
    if lum_milli < 85_000 {
        (
            quantize_spec(20 * lum_milli, 85_000),
            0,
            quantize_spec(40 * 85_000 + 215 * lum_milli, 85_000),
        )
    } else if lum_milli < 170_000 {
        (255, 0, quantize_spec(255 * 85_000 - 127 * (lum_milli - 85_000), 85_000))
    } else {
        (
            quantize_spec(255 * (85_000 - (lum_milli - 170_000)), 85_000),
            quantize_spec(255 * (lum_milli - 170_000), 85_000),
            255,
        )
    }
}

/// Four fixed colours by luminance: black below 50, magenta below 120, cyan
/// below 190, white from there on.
pub open spec fn cga_spec(lum_milli: int) -> (int, int, int) {
    if lum_milli < 50_000 {
        (0, 0, 0)
    } else if lum_milli < 120_000 {
        (255, 85, 255)
    } else if lum_milli < 190_000 {
        (85, 255, 255)
    } else {
        (255, 255, 255)
    }
}

/// Position of `hue` within its pair of sectors, folded: rises from 0 to 60
/// over one sector of 60 degrees and falls back over the next.
pub open spec fn hue_fold(hue: int) -> int {
    let p = hue % 120;
    if p <= 60 {
        p
    } else {
        120 - p
    }
}

/// HSV to RGB. `hue` is in degrees, `sat` and `val` in thousandths. With
/// chroma `c = val * sat`, second component `x = c * fold / 60` and offset
/// `m = val - c`, each channel is `c + m`, `x + m` or `m`, by the sector of
/// 60 degrees that the hue lies in, times 255.
pub open spec fn hsv_spec(hue: int, sat: int, val: int) -> (int, int, int) {
    let c = val * sat;
    let m = val * 1000 - c;
    let high = quantize_spec(255 * (60 * c + 60 * m), 60_000_000);
    let mid = quantize_spec(255 * (hue_fold(hue) * c + 60 * m), 60_000_000);
    let low = quantize_spec(255 * (60 * m), 60_000_000);
    if hue < 60 {
        (high, mid, low)
    } else if hue < 120 {
        (mid, high, low)
    } else if hue < 180 {
        (low, high, mid)
    } else if hue < 240 {
        (low, mid, high)
    } else if hue < 300 {
        (mid, low, high)
    } else {
        (high, low, mid)
    }
}

/// The hue of a cell in rainbow mode, in degrees.
pub open spec fn rainbow_hue(x: int, y: int, frame_count: int) -> int {
    (2 * x + 4 * y + 5 * frame_count) % 360
}

/// Rainbow: full saturation and value at the cell's hue.
pub open spec fn rainbow_spec(x: int, y: int, frame_count: int) -> (int, int, int) {
    hsv_spec(rainbow_hue(x, y, frame_count), 1000, 1000)
}

/// The colour shift of glitch mode where no random colour strikes: red and
/// blue move up by ten and wrap around at 256.
pub open spec fn glitch_shift_spec(r: int, g: int, b: int) -> (int, int, int) {
    ((r + 10) % 256, g, (b + 10) % 256)
}

/// The colour with the given channels.
pub open spec fn rgb_of(channels: (int, int, int)) -> Rgb {
    Rgb { r: channels.0 as u8, g: channels.1 as u8, b: channels.2 as u8 }
}

/// The display colour of a sample. `noise` is the random colour that glitch
/// mode drew for the cell, if it drew one; no other mode looks at it.
pub open spec fn color_spec(
    sample: BlockSample,
    mode: ArtMode,
    x: int,
    y: int,
    frame_count: int,
    noise: Option<Rgb>,
) -> Rgb {
    match mode {
        ArtMode::Standard => Rgb { r: sample.r, g: sample.g, b: sample.b },
        ArtMode::Grayscale => rgb_of(grayscale_spec(sample.lum_milli as int)),
        ArtMode::Matrix => rgb_of(matrix_spec(sample.lum_milli as int)),
        ArtMode::Thermal => rgb_of(thermal_spec(sample.lum_milli as int)),
        ArtMode::Amber => rgb_of(amber_spec(sample.lum_milli as int)),
        ArtMode::Neon => rgb_of(neon_spec(sample.lum_milli as int)),
        ArtMode::Rainbow => rgb_of(rainbow_spec(x, y, frame_count)),
        ArtMode::Cga => rgb_of(cga_spec(sample.lum_milli as int)),
        ArtMode::Glitch => match noise {
            Some(c) => c,
            None => rgb_of(glitch_shift_spec(sample.r as int, sample.g as int, sample.b as int)),
        },
    }
}

/// The hue of a cell lies within the circle.
pub proof fn lemma_rainbow_hue_range(x: int, y: int, frame_count: int)
    ensures
        0 <= rainbow_hue(x, y, frame_count) < 360,
{
}

/// Rainbow mode looks at position and frame only through the hue: two
/// cells of equal hue have the same colour, whatever their samples.
pub proof fn lemma_rainbow_by_hue(
    first: BlockSample,
    x1: int,
    y1: int,
    t1: int,
    second: BlockSample,
    x2: int,
    y2: int,
    t2: int,
)
    requires
        rainbow_hue(x1, y1, t1) == rainbow_hue(x2, y2, t2),
    ensures
        color_spec(first, ArtMode::Rainbow, x1, y1, t1, None) == color_spec(
            second,
            ArtMode::Rainbow,
            x2,
            y2,
            t2,
            None,
        ),
{
}

/// Rainbow mode repeats every 72 frames: the hue moves by five degrees a
/// frame, which makes a full circle.
pub proof fn lemma_rainbow_period(
    sample: BlockSample,
    x: int,
    y: int,
    frame_count: int,
    noise: Option<Rgb>,
)
    ensures
        rainbow_hue(x, y, frame_count + 72) == rainbow_hue(x, y, frame_count),
        color_spec(sample, ArtMode::Rainbow, x, y, frame_count + 72, noise) == color_spec(
            sample,
            ArtMode::Rainbow,
            x,
            y,
            frame_count,
            noise,
        ),
{
    let turn = 2 * x + 4 * y + 5 * frame_count;
    assert(rainbow_hue(x, y, frame_count + 72) == rainbow_hue(x, y, frame_count)) by {
        assert(2 * x + 4 * y + 5 * (frame_count + 72) == 360 + turn);
        vstd::arithmetic::div_mod::lemma_mod_add_multiples_vanish(turn, 360);
    }
}

/// Where no random colour strikes, glitch mode depends on the sample
/// alone: red and blue go up by ten and wrap around at 256, green stays.
pub proof fn lemma_glitch_without_noise(sample: BlockSample, x: int, y: int, frame_count: int)
    ensures
        color_spec(sample, ArtMode::Glitch, x, y, frame_count, None) == (Rgb {
            r: ((sample.r + 10) % 256) as u8,
            g: sample.g,
            b: ((sample.b + 10) % 256) as u8,
        }),
{
}

/// Outside glitch mode the noise has no part in the colour.
pub proof fn lemma_noise_only_in_glitch(
    sample: BlockSample,
    mode: ArtMode,
    x: int,
    y: int,
    frame_count: int,
    noise: Option<Rgb>,
)
    requires
        mode != ArtMode::Glitch,
    ensures
        color_spec(sample, mode, x, y, frame_count, noise) == color_spec(
            sample,
            mode,
            x,
            y,
            frame_count,
            None,
        ),
{
}

/// The channel value of `num / den`.
pub fn quantize(num: i64, den: i64) -> (v: u8)
    requires
        den > 0,
    ensures
        v == quantize_spec(num as int, den as int),
{
    if num <= 0 {
        0
    } else {
        let q: i64 = num / den;
        if q > 255 {
            255
        } else {
            q as u8
        }
    }
}

/// Luminance in whole channel steps.
pub fn round_luminance(lum_milli: u32) -> (l: u8)
    ensures
        l == rounded_luminance(lum_milli as int),
{
    quantize(lum_milli as i64 + 500, 1000)
}

/// HSV to RGB, with `hue` in degrees and `sat` and `val` in thousandths.
pub fn hsv_to_rgb(hue: u32, sat: u16, val: u16) -> (c: Rgb)
    ensures
        c == rgb_of(hsv_spec(hue as int, sat as int, val as int)),
{
    assert(0 <= val * sat <= 0xffff * 0xffff) by (nonlinear_arith)
        requires
            0 <= sat <= 0xffff,
            0 <= val <= 0xffff,
    ;
    let chroma: i64 = (val as i64) * (sat as i64);
    let offset: i64 = (val as i64) * 1000 - chroma;
    let p: i64 = (hue % 120) as i64;
    let fold: i64 = if p <= 60 {
        p
    } else {
        120 - p
    };
    assert(0 <= fold * chroma <= 60 * (0xffff * 0xffff)) by (nonlinear_arith)
        requires
            0 <= fold <= 60,
            0 <= chroma <= 0xffff * 0xffff,
    ;
    let high: u8 = quantize(255 * (60 * chroma + 60 * offset), 60_000_000);
    let mid: u8 = quantize(255 * (fold * chroma + 60 * offset), 60_000_000);
    let low: u8 = quantize(255 * (60 * offset), 60_000_000);
    if hue < 60 {
        Rgb { r: high, g: mid, b: low }
    } else if hue < 120 {
        Rgb { r: mid, g: high, b: low }
    } else if hue < 180 {
        Rgb { r: low, g: high, b: mid }
    } else if hue < 240 {
        Rgb { r: low, g: mid, b: high }
    } else if hue < 300 {
        Rgb { r: mid, g: low, b: high }
    } else {
        Rgb { r: high, g: low, b: mid }
    }
}

/// The hue of a cell in rainbow mode.
pub fn hue_at(x: usize, y: usize, frame_count: usize) -> (hue: u32)
    ensures
        hue == rainbow_hue(x as int, y as int, frame_count as int),
        hue < 360,
{
    let total: u128 = 2 * (x as u128) + 4 * (y as u128) + 5 * (frame_count as u128);
    (total % 360) as u32
}

/// The display colour of a sample in a mode, at column `x` and row `y` of
/// the grid, in frame `frame_count`. `noise` is what glitch mode drew for
/// the cell.
pub fn color_for(
    sample: &BlockSample,
    mode: &ArtMode,
    x: usize,
    y: usize,
    frame_count: usize,
    noise: Option<Rgb>,
) -> (c: Rgb)
    ensures
        c == color_spec(*sample, *mode, x as int, y as int, frame_count as int, noise),
{
    let lum: i64 = sample.lum_milli as i64;
    match mode {
        ArtMode::Standard => Rgb { r: sample.r, g: sample.g, b: sample.b },
        ArtMode::Grayscale => {
            let l: u8 = round_luminance(sample.lum_milli);
            Rgb { r: l, g: l, b: l }
        },
        ArtMode::Matrix => Rgb { r: 0, g: round_luminance(sample.lum_milli), b: 0 },
        ArtMode::Amber => {
            let l: u8 = round_luminance(sample.lum_milli);
            Rgb { r: l, g: quantize(69 * (l as i64), 100), b: 0 }
        },
        ArtMode::Thermal => {
            if lum < 64_000 {
                Rgb { r: 0, g: quantize(4 * lum, 1000), b: 255 }
            } else if lum < 128_000 {
                Rgb { r: 0, g: 255, b: quantize(255_000 - 4 * (lum - 64_000), 1000) }
            } else if lum < 192_000 {
                Rgb { r: quantize(4 * (lum - 128_000), 1000), g: 255, b: 0 }
            } else {
                Rgb { r: 255, g: quantize(255_000 - 4 * (lum - 192_000), 1000), b: 0 }
            }
        },
        ArtMode::Neon => {
            if lum < 85_000 {
                Rgb {
                    r: quantize(20 * lum, 85_000),
                    g: 0,
                    b: quantize(40 * 85_000 + 215 * lum, 85_000),
                }
            } else if lum < 170_000 {
                Rgb { r: 255, g: 0, b: quantize(255 * 85_000 - 127 * (lum - 85_000), 85_000) }
            } else {
                Rgb {
                    r: quantize(255 * (85_000 - (lum - 170_000)), 85_000),
                    g: quantize(255 * (lum - 170_000), 85_000),
                    b: 255,
                }
            }
        },
        ArtMode::Rainbow => hsv_to_rgb(hue_at(x, y, frame_count), 1000, 1000),
        ArtMode::Cga => {
            if lum < 50_000 {
                Rgb { r: 0, g: 0, b: 0 }
            } else if lum < 120_000 {
                Rgb { r: 255, g: 85, b: 255 }
            } else if lum < 190_000 {
                Rgb { r: 85, g: 255, b: 255 }
            } else {
                Rgb { r: 255, g: 255, b: 255 }
            }
        },
        ArtMode::Glitch => match noise {
            Some(c) => c,
            None => Rgb { r: sample.r.wrapping_add(10), g: sample.g, b: sample.b.wrapping_add(10) },
        },
    }
}

/// The display colour of a sample, with the random colour of glitch mode
/// drawn from `rng`. In every other mode the generator is left alone and the
/// colour is that of [`color_for`] without noise. In glitch mode it is that
/// of [`color_for`] for the noise that was drawn.
pub fn get_color(
    sample: &BlockSample,
    mode: &ArtMode,
    x: usize,
    y: usize,
    frame_count: usize,
    rng: &mut StdRng,
) -> (c: Rgb)
    ensures
        *mode != ArtMode::Glitch ==> *final(rng) == *old(rng),
        *mode != ArtMode::Glitch ==> c == color_spec(
            *sample,
            *mode,
            x as int,
            y as int,
            frame_count as int,
            None,
        ),
        exists|noise: Option<Rgb>|
            c == #[trigger] color_spec(
                *sample,
                *mode,
                x as int,
                y as int,
                frame_count as int,
                noise,
            ),
{
    let noise: Option<Rgb> = match mode {
        ArtMode::Glitch => draw_color(rng),
        _ => None,
    };
    color_for(sample, mode, x, y, frame_count, noise)
}

} // verus!
