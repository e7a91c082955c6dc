//! The block sampler: a frame is cut into rectangular blocks, and each block
//! is reduced to its mean colour and the luminance of that colour.

use vstd::prelude::*;
use crate::pixel::{PixelBuffer, Rgb};

verus! {

/// Weight of the red channel in the luminance, in thousandths.
pub const WEIGHT_R: u32 = 299;

/// Weight of the green channel in the luminance, in thousandths.
pub const WEIGHT_G: u32 = 587;

/// Weight of the blue channel in the luminance, in thousandths.
pub const WEIGHT_B: u32 = 114;

/// The reduction of one block of pixels.
#[derive(Clone, Copy, Debug, PartialEq, Eq, Structural)]
pub struct BlockSample {
    /// Luminance in thousandths of a channel step: 255 000 is full white.
    /// Thousandths keep the weighted sum of three channels exact.
    pub lum_milli: u32,
    pub r: u8,
    pub g: u8,
    pub b: u8,
}

/// Luminance of a colour in thousandths: `0.299 r + 0.587 g + 0.114 b`,
/// times a thousand.
pub open spec fn luminance_milli(r: int, g: int, b: int) -> int {
    299 * r + 587 * g + 114 * b
}

/// The sample of a single colour.
pub open spec fn sample_of(r: int, g: int, b: int) -> BlockSample {
    BlockSample { lum_milli: luminance_milli(r, g, b) as u32, r: r as u8, g: g as u8, b: b as u8 }
}

impl BlockSample {
    /// The sample of a single colour.
    pub fn from_rgb(r: u8, g: u8, b: u8) -> (s: BlockSample)
        ensures
            s == sample_of(r as int, g as int, b as int),
            s.lum_milli == luminance_milli(r as int, g as int, b as int),
            s.lum_milli <= 255_000,
    {
        let lum: u32 = WEIGHT_R * (r as u32) + WEIGHT_G * (g as u32) + WEIGHT_B * (b as u32);
        BlockSample { lum_milli: lum, r, g, b }
    }
}

impl Default for BlockSample {
    /// The sample of black.
    fn default() -> (s: BlockSample)
        ensures
            s == (BlockSample { lum_milli: 0, r: 0, g: 0, b: 0 }),
    {
        BlockSample { lum_milli: 0, r: 0, g: 0, b: 0 }
    }
}

/// The quotient `num / den` rounded to the nearest integer, halves upwards.
pub open spec fn round_div(num: int, den: int) -> int
    recommends
        num >= 0,
        den > 0,
{
    (2 * num + den) / (2 * den)
}

/// Width of a block: the number of source columns that go into one output
/// column, rounded, and at least one. A target width below one counts as
/// one.
pub open spec fn block_width_spec(img_width: int, width: int) -> int {
    let target = if width < 1 {
        1
    } else {
        width
    };
    if img_width <= 0 || round_div(img_width, target) < 1 {
        1
    } else {
        round_div(img_width, target)
    }
}

/// Height of a block: its width divided by the aspect factor one half,
/// since a glyph is about twice as tall as it is wide.
pub open spec fn block_height_spec(block_width: int) -> int {
    2 * block_width
}

/// `round_div` gives the integer nearest to the quotient: twice the distance
/// between `q * den` and `num` is at most `den`, and where two integers are
/// equally near it is the larger.
pub proof fn lemma_round_div_nearest(num: int, den: int)
    requires
        num >= 0,
        den > 0,
    ensures
        2 * (round_div(num, den) * den) - den <= 2 * num,
        2 * num < 2 * (round_div(num, den) * den) + den,
        round_div(num, den) >= 0,
{
    let q = round_div(num, den);
    let a = 2 * num + den;
    let d = 2 * den;
    vstd::arithmetic::div_mod::lemma_fundamental_div_mod(a, d);
    vstd::arithmetic::div_mod::lemma_mod_bound(a, d);
    assert(a == d * q + a % d);
    assert(d * q == 2 * (q * den)) by (nonlinear_arith)
        requires
            d == 2 * den,
    ;
    assert(q >= 0) by (nonlinear_arith)
        requires
            2 * (q * den) + den > 2 * num - den,
            num >= 0,
            den > 0,
    ;
}

/// The block width stated without division: it is at least one; unless it
/// is one, it exceeds the quotient of `img_width` and `target` by no more
/// than a half; and it falls short of the quotient by less than a half.
pub open spec fn is_block_width(block_width: int, img_width: int, target: int) -> bool {
    &&& block_width >= 1
    &&& block_width == 1 || 2 * (block_width * target) - target <= 2 * img_width
    &&& 2 * img_width < 2 * (block_width * target) + target
}

/// The size of the blocks that turn a frame `img_width` pixels wide into
/// about `width` columns: width first, then height.
pub fn calculate_block_size(img_width: i32, width: i32) -> (size: (u32, u32))
    ensures
        size.0 == block_width_spec(img_width as int, width as int),
        size.1 == block_height_spec(size.0 as int),
        is_block_width(
            size.0 as int,
            img_width as int,
            if width < 1 {
                1
            } else {
                width as int
            },
        ),
        size.0 >= 1,
        size.1 >= 1,
{
    let target: i64 = if width < 1 {
        1
    } else {
        width as i64
    };
    if img_width <= 0 {
        assert(2 * (1 * target) + target > 0);
        return (1, 2);
    }
    let num: i64 = 2 * (img_width as i64) + target;
    let den: i64 = 2 * target;
    let q: i64 = num / den;
    proof {
        lemma_round_div_nearest(img_width as int, target as int);
        assert(q <= 0x7fff_ffff) by (nonlinear_arith)
            requires
                2 * (q * target) - target <= 2 * img_width,
                img_width <= 0x7fff_ffff,
                target >= 1,
                q >= 0,
        ;
    }
    let block_w: u32 = if q < 1 {
        1
    } else {
        q as u32
    };
    proof {
        if q < 1 {
            assert(q * target == 0) by (nonlinear_arith)
                requires
                    q == 0,
            ;
            assert(1 * target == target) by (nonlinear_arith);
        }
    }
    (block_w, 2 * block_w)
}

/// One channel of a colour: 0 is red, 1 is green, anything else blue.
pub open spec fn channel(c: Rgb, ch: int) -> int {
    if ch == 0 {
        c.r as int
    } else if ch == 1 {
        c.g as int
    } else {
        c.b as int
    }
}

/// Sum of one channel over the pixels of row `y` in columns `x0..x1`.
pub open spec fn row_sum(frame: PixelBuffer, ch: int, y: int, x0: int, x1: int) -> int
    decreases x1 - x0,
{
    if x1 <= x0 {
        0
    } else {
        row_sum(frame, ch, y, x0, x1 - 1) + channel(frame.pixel(x1 - 1, y), ch)
    }
}

/// Sum of one channel over the pixels in columns `x0..x1` of rows `y0..y1`.
pub open spec fn block_sum(frame: PixelBuffer, ch: int, x0: int, x1: int, y0: int, y1: int) -> int
    decreases y1 - y0,
{
    if y1 <= y0 {
        0
    } else {
        block_sum(frame, ch, x0, x1, y0, y1 - 1) + row_sum(frame, ch, y1 - 1, x0, x1)
    }
}

/// The smaller of two integers.
pub open spec fn least(a: int, b: int) -> int {
    if a <= b {
        a
    } else {
        b
    }
}

/// The sample of the block of `w` by `h` pixels whose top left corner is at
/// `(x0, y0)`, cut off at the frame's edges: the mean of each channel over
/// the block's pixels, fractions dropped, and the luminance of that mean
/// colour.
pub open spec fn block_sample_spec(frame: PixelBuffer, x0: int, y0: int, w: int, h: int)
    -> BlockSample {
    let x1 = least(x0 + w, frame.cols() as int);
    let y1 = least(y0 + h, frame.rows() as int);
    let count = (x1 - x0) * (y1 - y0);
    sample_of(
        block_sum(frame, 0, x0, x1, y0, y1) / count,
        block_sum(frame, 1, x0, x1, y0, y1) / count,
        block_sum(frame, 2, x0, x1, y0, y1) / count,
    )
}

/// A row sum lies between zero and 255 for each pixel.
pub proof fn lemma_row_sum_bounds(frame: PixelBuffer, ch: int, y: int, x0: int, x1: int)
    requires
        x0 <= x1,
    ensures
        0 <= row_sum(frame, ch, y, x0, x1) <= 255 * (x1 - x0),
    decreases x1 - x0,
{
    if x0 < x1 {
        lemma_row_sum_bounds(frame, ch, y, x0, x1 - 1);
    }
}

/// A block sum lies between zero and 255 for each pixel.
pub proof fn lemma_block_sum_bounds(
    frame: PixelBuffer,
    ch: int,
    x0: int,
    x1: int,
    y0: int,
    y1: int,
)
    requires
        x0 <= x1,
        y0 <= y1,
    ensures
        0 <= block_sum(frame, ch, x0, x1, y0, y1) <= 255 * ((x1 - x0) * (y1 - y0)),
    decreases y1 - y0,
{
    if y0 < y1 {
        lemma_block_sum_bounds(frame, ch, x0, x1, y0, y1 - 1);
        lemma_row_sum_bounds(frame, ch, y1 - 1, x0, x1);
        assert((x1 - x0) * (y1 - y0) == (x1 - x0) * (y1 - 1 - y0) + (x1 - x0))
            by (nonlinear_arith);
    } else {
        assert((x1 - x0) * (y1 - y0) == 0) by (nonlinear_arith)
            requires
                y1 - y0 == 0,
        ;
    }
}

/// The mean of a channel over a block of at least one pixel is a channel
/// value.
pub proof fn lemma_mean_is_channel(sum: int, count: int)
    requires
        count > 0,
        0 <= sum <= 255 * count,
    ensures
        0 <= sum / count <= 255,
{
    assert(0 <= sum / count <= 255) by (nonlinear_arith)
        requires
            count > 0,
            0 <= sum <= 255 * count,
    ;
}

/// The sample of one block of a frame. The block starts within the frame
/// and has at least one pixel each way, so a pixel is left after it is cut
/// off at the frame's edges.
pub fn block_color(frame: &PixelBuffer, x0: u32, y0: u32, w: u32, h: u32) -> (s: BlockSample)
    requires
        x0 < frame.cols(),
        y0 < frame.rows(),
        w >= 1,
        h >= 1,
    ensures
        s == block_sample_spec(*frame, x0 as int, y0 as int, w as int, h as int),
        s.lum_milli == luminance_milli(s.r as int, s.g as int, s.b as int),
        s.lum_milli <= 255_000,
{
    let width: usize = frame.width();
    let height: usize = frame.height();
    let x_start: usize = x0 as usize;
    let y_start: usize = y0 as usize;
    let x_end: usize = if (w as usize) < width - x_start {
        x_start + w as usize
    } else {
        width
    };
    let y_end: usize = if (h as usize) < height - y_start {
        y_start + h as usize
    } else {
        height
    };
    let ghost span: int = x_end - x_start;
    let mut r_sum: u128 = 0;
    let mut g_sum: u128 = 0;
    let mut b_sum: u128 = 0;
    let mut count: u64 = 0;
    let mut y: usize = y_start;
    assert(span * 0 == 0) by (nonlinear_arith);
    while y < y_end
        invariant
            y_start <= y <= y_end <= height,
            x_start < x_end <= width,
            width == frame.cols(),
            height == frame.rows(),
            height <= 0x7fff_ffff,
            width <= 0x7fff_ffff,
            span == x_end - x_start,
            count == span * (y - y_start),
            r_sum == block_sum(*frame, 0, x_start as int, x_end as int, y_start as int, y as int),
            g_sum == block_sum(*frame, 1, x_start as int, x_end as int, y_start as int, y as int),
            b_sum == block_sum(*frame, 2, x_start as int, x_end as int, y_start as int, y as int),
        decreases y_end - y,
    {
        let ghost r_rows: int = r_sum as int;
        let ghost g_rows: int = g_sum as int;
        let ghost b_rows: int = b_sum as int;
        let ghost n_rows: int = count as int;
        proof {
            lemma_block_sum_bounds(
                *frame,
                0,
                x_start as int,
                x_end as int,
                y_start as int,
                y as int,
            );
            lemma_block_sum_bounds(
                *frame,
                1,
                x_start as int,
                x_end as int,
                y_start as int,
                y as int,
            );
            lemma_block_sum_bounds(
                *frame,
                2,
                x_start as int,
                x_end as int,
                y_start as int,
                y as int,
            );
            assert(0 <= span * (y - y_start) <= 0x7fff_ffff * 0x7fff_ffff) by (nonlinear_arith)
                requires
                    0 <= span <= 0x7fff_ffff,
                    0 <= y - y_start <= 0x7fff_ffff,
            ;
        }
        let mut x: usize = x_start;
        while x < x_end
            invariant
                x_start <= x <= x_end <= width,
                y < height,
                width == frame.cols(),
                height == frame.rows(),
                width <= 0x7fff_ffff,
                0 <= n_rows <= 0x7fff_ffff * 0x7fff_ffff,
                0 <= r_rows <= 255 * n_rows,
                0 <= g_rows <= 255 * n_rows,
                0 <= b_rows <= 255 * n_rows,
                count == n_rows + (x - x_start),
                r_sum == r_rows + row_sum(*frame, 0, y as int, x_start as int, x as int),
                g_sum == g_rows + row_sum(*frame, 1, y as int, x_start as int, x as int),
                b_sum == b_rows + row_sum(*frame, 2, y as int, x_start as int, x as int),
            decreases x_end - x,
        {
            proof {
                lemma_row_sum_bounds(*frame, 0, y as int, x_start as int, x as int);
                lemma_row_sum_bounds(*frame, 1, y as int, x_start as int, x as int);
                lemma_row_sum_bounds(*frame, 2, y as int, x_start as int, x as int);
            }
            let p: Rgb = frame.get(x, y);
            r_sum += p.r as u128;
            g_sum += p.g as u128;
            b_sum += p.b as u128;
            count += 1;
            x += 1;
        }
        proof {
            assert(span * (y + 1 - y_start) == span * (y - y_start) + span) by (nonlinear_arith);
        }
        y += 1;
    }
    proof {
        let rows: int = y_end - y_start;
        assert(count == span * rows);
        assert(span * rows > 0) by (nonlinear_arith)
            requires
                span > 0,
                rows > 0,
        ;
        lemma_block_sum_bounds(
            *frame,
            0,
            x_start as int,
            x_end as int,
            y_start as int,
            y_end as int,
        );
        lemma_block_sum_bounds(
            *frame,
            1,
            x_start as int,
            x_end as int,
            y_start as int,
            y_end as int,
        );
        lemma_block_sum_bounds(
            *frame,
            2,
            x_start as int,
            x_end as int,
            y_start as int,
            y_end as int,
        );
        lemma_mean_is_channel(r_sum as int, count as int);
        lemma_mean_is_channel(g_sum as int, count as int);
        lemma_mean_is_channel(b_sum as int, count as int);
    }
    let n: u128 = count as u128;
    let r: u8 = (r_sum / n) as u8;
    let g: u8 = (g_sum / n) as u8;
    let b: u8 = (b_sum / n) as u8;
    BlockSample::from_rgb(r, g, b)
}

/// Over a row of pixels of one colour, the sum of a channel is that channel
/// times the number of pixels.
pub proof fn lemma_row_sum_uniform(frame: PixelBuffer, ch: int, y: int, x0: int, x1: int, c: Rgb)
    requires
        x0 <= x1,
        forall|x: int| x0 <= x < x1 ==> #[trigger] frame.pixel(x, y) == c,
    ensures
        row_sum(frame, ch, y, x0, x1) == (x1 - x0) * channel(c, ch),
    decreases x1 - x0,
{
    if x0 < x1 {
        lemma_row_sum_uniform(frame, ch, y, x0, x1 - 1, c);
        assert(frame.pixel(x1 - 1, y) == c);
        assert((x1 - x0) * channel(c, ch) == (x1 - 1 - x0) * channel(c, ch) + channel(c, ch))
            by (nonlinear_arith);
    } else {
        assert((x1 - x0) * channel(c, ch) == 0) by (nonlinear_arith)
            requires
                x1 - x0 == 0,
        ;
    }
}

/// Over a block of pixels of one colour, the sum of a channel is that
/// channel times the number of pixels.
pub proof fn lemma_block_sum_uniform(
    frame: PixelBuffer,
    ch: int,
    x0: int,
    x1: int,
    y0: int,
    y1: int,
    c: Rgb,
)
    requires
        x0 <= x1,
        y0 <= y1,
        forall|x: int, y: int| x0 <= x < x1 && y0 <= y < y1 ==> #[trigger] frame.pixel(x, y) == c,
    ensures
        block_sum(frame, ch, x0, x1, y0, y1) == ((x1 - x0) * (y1 - y0)) * channel(c, ch),
    decreases y1 - y0,
{
    let v = channel(c, ch);
    if y0 < y1 {
        lemma_block_sum_uniform(frame, ch, x0, x1, y0, y1 - 1, c);
        lemma_row_sum_uniform(frame, ch, y1 - 1, x0, x1, c);
        assert(((x1 - x0) * (y1 - y0)) * v == ((x1 - x0) * (y1 - 1 - y0)) * v + (x1 - x0) * v)
            by (nonlinear_arith);
    } else {
        assert(((x1 - x0) * (y1 - y0)) * v == 0) by (nonlinear_arith)
            requires
                y1 - y0 == 0,
        ;
    }
}

/// A block whose pixels all have one colour is sampled to exactly that
/// colour, with the luminance that the weights give it.
pub proof fn lemma_uniform_block(frame: PixelBuffer, x0: int, y0: int, w: int, h: int, c: Rgb)
    requires
        0 <= x0 < frame.cols(),
        0 <= y0 < frame.rows(),
        w >= 1,
        h >= 1,
        forall|x: int, y: int|
            x0 <= x < least(x0 + w, frame.cols() as int) && y0 <= y < least(
                y0 + h,
                frame.rows() as int,
            ) ==> #[trigger] frame.pixel(x, y) == c,
    ensures
        block_sample_spec(frame, x0, y0, w, h) == sample_of(c.r as int, c.g as int, c.b as int),
        block_sample_spec(frame, x0, y0, w, h).r == c.r,
        block_sample_spec(frame, x0, y0, w, h).g == c.g,
        block_sample_spec(frame, x0, y0, w, h).b == c.b,
        block_sample_spec(frame, x0, y0, w, h).lum_milli == 299 * c.r + 587 * c.g + 114 * c.b,
{
    let x1 = least(x0 + w, frame.cols() as int);
    let y1 = least(y0 + h, frame.rows() as int);
    let count = (x1 - x0) * (y1 - y0);
    assert(count > 0) by (nonlinear_arith)
        requires
            count == (x1 - x0) * (y1 - y0),
            x1 - x0 > 0,
            y1 - y0 > 0,
    ;
    lemma_block_sum_uniform(frame, 0, x0, x1, y0, y1, c);
    lemma_block_sum_uniform(frame, 1, x0, x1, y0, y1, c);
    lemma_block_sum_uniform(frame, 2, x0, x1, y0, y1, c);
    vstd::arithmetic::div_mod::lemma_div_multiples_vanish(c.r as int, count);
    vstd::arithmetic::div_mod::lemma_div_multiples_vanish(c.g as int, count);
    vstd::arithmetic::div_mod::lemma_div_multiples_vanish(c.b as int, count);
    assert(count * (c.r as int) == (c.r as int) * count) by (nonlinear_arith);
    assert(count * (c.g as int) == (c.g as int) * count) by (nonlinear_arith);
    assert(count * (c.b as int) == (c.b as int) * count) by (nonlinear_arith);
}

/// The least number of blocks of `block` pixels that cover `extent` pixels.
pub open spec fn blocks_needed(extent: int, block: int) -> int
    recommends
        block > 0,
{
    (extent + block - 1) / block
}

/// Number of rows of the sample grid: none for a frame without pixels or a
/// block without area, else as many as cover the frame's height.
pub open spec fn grid_rows(frame: PixelBuffer, block_w: int, block_h: int) -> int {
    if frame.is_blank() || block_w < 1 || block_h < 1 {
        0
    } else {
        blocks_needed(frame.rows() as int, block_h)
    }
}

/// Number of samples in each row of the sample grid: as many as cover the
/// frame's width.
pub open spec fn grid_cols(frame: PixelBuffer, block_w: int, block_h: int) -> int {
    if frame.is_blank() || block_w < 1 || block_h < 1 {
        0
    } else {
        blocks_needed(frame.cols() as int, block_w)
    }
}

/// `count` blocks are needed where one fewer leaves something uncovered.
pub proof fn lemma_blocks_needed(extent: int, block: int, count: int)
    requires
        block > 0,
        (count - 1) * block < extent <= count * block,
    ensures
        blocks_needed(extent, block) == count,
{
    let r = extent + block - 1 - count * block;
    assert((count - 1) * block == count * block - block) by (nonlinear_arith);
    vstd::arithmetic::div_mod::lemma_fundamental_div_mod_converse(
        extent + block - 1,
        block,
        count,
        r,
    );
}

/// Every block that is needed starts within the extent.
pub proof fn lemma_block_starts_inside(extent: int, block: int, index: int)
    requires
        block > 0,
        0 <= index < blocks_needed(extent, block),
    ensures
        0 <= index * block < extent,
{
    let n = blocks_needed(extent, block);
    vstd::arithmetic::div_mod::lemma_fundamental_div_mod(extent + block - 1, block);
    vstd::arithmetic::div_mod::lemma_mod_bound(extent + block - 1, block);
    assert(block * n <= extent + block - 1);
    assert(index * block <= (n - 1) * block) by (nonlinear_arith)
        requires
            index <= n - 1,
            block > 0,
    ;
    assert((n - 1) * block == block * n - block) by (nonlinear_arith);
    assert(0 <= index * block) by (nonlinear_arith)
        requires
            0 <= index,
            block > 0,
    ;
}

/// The samples of one row of blocks, from left to right.
fn sample_row(frame: &PixelBuffer, y0: u32, block_w: u32, block_h: u32) -> (row: Vec<BlockSample>)
    requires
        !frame.is_blank(),
        y0 < frame.rows(),
        block_w >= 1,
        block_h >= 1,
    ensures
        row@.len() == blocks_needed(frame.cols() as int, block_w as int),
        forall|j: int|
            0 <= j < row@.len() ==> #[trigger] row@[j] == block_sample_spec(
                *frame,
                j * block_w,
                y0 as int,
                block_w as int,
                block_h as int,
            ),
{
    let width: u64 = frame.width() as u64;
    let mut row: Vec<BlockSample> = Vec::new();
    let mut x0: u64 = 0;
    assert(0 * block_w == 0) by (nonlinear_arith);
    while x0 < width
        invariant
            width == frame.cols(),
            width <= 0x7fff_ffff,
            y0 < frame.rows(),
            block_w >= 1,
            block_h >= 1,
            x0 == row@.len() * block_w,
            row@.len() > 0 ==> (row@.len() - 1) * block_w < width,
            forall|j: int|
                0 <= j < row@.len() ==> #[trigger] row@[j] == block_sample_spec(
                    *frame,
                    j * block_w,
                    y0 as int,
                    block_w as int,
                    block_h as int,
                ),
        decreases
            (if x0 < width {
                width - x0
            } else {
                0
            }),
    {
        let ghost done: int = row@.len() as int;
        let s: BlockSample = block_color(frame, x0 as u32, y0, block_w, block_h);
        row.push(s);
        proof {
            assert((done + 1) * block_w == done * block_w + block_w) by (nonlinear_arith);
            assert((done + 1 - 1) * block_w == x0);
        }
        x0 += block_w as u64;
    }
    proof {
        lemma_blocks_needed(width as int, block_w as int, row@.len() as int);
    }
    row
}

/// The sample grid of a frame: one sample for each block of
/// `block_size.0` by `block_size.1` pixels, row by row from the top and
/// from left to right within a row. Blocks at the right and bottom edge
/// are cut off at the frame's edge. A frame without pixels, or a block
/// without area, gives the empty grid.
pub fn get_blocks_data(frame: &PixelBuffer, block_size: (u32, u32)) -> (grid: Vec<Vec<BlockSample>>)
    ensures
        grid@.len() == grid_rows(*frame, block_size.0 as int, block_size.1 as int),
        forall|i: int|
            0 <= i < grid@.len() ==> (#[trigger] grid@[i])@.len() == grid_cols(
                *frame,
                block_size.0 as int,
                block_size.1 as int,
            ),
        forall|i: int, j: int|
            0 <= i < grid@.len() && 0 <= j < grid@[i]@.len() ==> #[trigger] grid@[i]@[j]
                == block_sample_spec(
                *frame,
                j * block_size.0,
                i * block_size.1,
                block_size.0 as int,
                block_size.1 as int,
            ),
{
    let block_w: u32 = block_size.0;
    let block_h: u32 = block_size.1;
    let mut grid: Vec<Vec<BlockSample>> = Vec::new();
    if frame.is_empty() || block_w == 0 || block_h == 0 {
        return grid;
    }
    let height: u64 = frame.height() as u64;
    let mut y0: u64 = 0;
    assert(0 * block_h == 0) by (nonlinear_arith);
    while y0 < height
        invariant
            !frame.is_blank(),
            height == frame.rows(),
            height <= 0x7fff_ffff,
            block_w >= 1,
            block_h >= 1,
            block_w == block_size.0,
            block_h == block_size.1,
            y0 == grid@.len() * block_h,
            grid@.len() > 0 ==> (grid@.len() - 1) * block_h < height,
            forall|i: int|
                0 <= i < grid@.len() ==> (#[trigger] grid@[i])@.len() == blocks_needed(
                    frame.cols() as int,
                    block_w as int,
                ),
            forall|i: int, j: int|
                0 <= i < grid@.len() && 0 <= j < grid@[i]@.len() ==> #[trigger] grid@[i]@[j]
                    == block_sample_spec(
                    *frame,
                    j * block_w,
                    i * block_h,
                    block_w as int,
                    block_h as int,
                ),
        decreases
            (if y0 < height {
                height - y0
            } else {
                0
            }),
    {
        let ghost done: int = grid@.len() as int;
        let row: Vec<BlockSample> = sample_row(frame, y0 as u32, block_w, block_h);
        grid.push(row);
        proof {
            assert((done + 1) * block_h == done * block_h + block_h) by (nonlinear_arith);
            assert((done + 1 - 1) * block_h == y0);
        }
        y0 += block_h as u64;
    }
    proof {
        lemma_blocks_needed(height as int, block_h as int, grid@.len() as int);
    }
    grid
}

} // verus!
