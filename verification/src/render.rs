//! The frame renderer: from a frame and the session's settings to a grid of
//! coloured glyphs.

use vstd::prelude::*;
use rand::rngs::StdRng;
use crate::charset::{chars_of, lemma_glyphs_nonempty};
use crate::color::{color_for, color_spec};
use crate::glyph::{
    active_glyphs,
    active_glyphs_spec,
    lemma_map_luminance_in_range,
    map_luminance,
    map_luminance_spec,
};
use crate::mode::ArtMode;
use crate::noise::{draw_color, draw_glyph, GlitchDraw};
use crate::pixel::{PixelBuffer, Rgb};
use crate::sample::{
    block_height_spec,
    block_sample_spec,
    block_width_spec,
    calculate_block_size,
    get_blocks_data,
    grid_cols,
    grid_rows,
    lemma_block_starts_inside,
    lemma_uniform_block,
    sample_of,
    BlockSample,
};
use crate::session::SessionConfig;

verus! {

/// One cell of the output: a glyph and its colour.
#[derive(Clone, Copy, Debug, PartialEq, Eq, Structural)]
pub struct RenderCell {
    pub glyph: char,
    pub color: Rgb,
}

/// The output of one frame: rows of cells from the top, each row from the
/// left.
#[derive(Debug, PartialEq, Eq)]
pub struct RenderGrid {
    pub rows: Vec<Vec<RenderCell>>,
}

/// Width of the blocks that a frame is cut into for `width` columns.
pub open spec fn frame_block_w(frame: PixelBuffer, width: int) -> int {
    block_width_spec(frame.cols() as int, width)
}

/// Height of the blocks that a frame is cut into for `width` columns.
pub open spec fn frame_block_h(frame: PixelBuffer, width: int) -> int {
    block_height_spec(frame_block_w(frame, width))
}

/// Number of rows that a frame is rendered to: none where the target width
/// is below one or the frame has no pixels.
pub open spec fn out_rows(frame: PixelBuffer, width: int) -> int {
    if width < 1 {
        0
    } else {
        grid_rows(frame, frame_block_w(frame, width), frame_block_h(frame, width))
    }
}

/// Number of cells in each row that a frame is rendered to.
pub open spec fn out_cols(frame: PixelBuffer, width: int) -> int {
    if width < 1 {
        0
    } else {
        grid_cols(frame, frame_block_w(frame, width), frame_block_h(frame, width))
    }
}

/// The sample behind the cell in row `i` and column `j`.
pub open spec fn cell_sample(frame: PixelBuffer, width: int, i: int, j: int) -> BlockSample {
    block_sample_spec(
        frame,
        j * frame_block_w(frame, width),
        i * frame_block_h(frame, width),
        frame_block_w(frame, width),
        frame_block_h(frame, width),
    )
}

/// The glyph of a sample: the one at the position of its luminance.
pub open spec fn glyph_for(sample: BlockSample, glyphs: Seq<char>) -> char
    recommends
        glyphs.len() >= 1,
{
    glyphs[map_luminance_spec(sample.lum_milli as int, glyphs.len() as int)]
}

/// A sample with its glyph.
pub open spec fn with_glyph(sample: BlockSample, glyphs: Seq<char>) -> (BlockSample, char) {
    (sample, glyph_for(sample, glyphs))
}

/// The samples of a frame with their glyphs: where `ascii_data` has
/// `start` rows already, the rows from `start` on are those of the frame.
pub open spec fn holds_frame(
    ascii_data: Seq<Vec<(BlockSample, char)>>,
    start: int,
    glyphs: Seq<char>,
    frame: PixelBuffer,
    width: int,
) -> bool {
    &&& ascii_data.len() == start + out_rows(frame, width)
    &&& forall|i: int|
        0 <= i < out_rows(frame, width) ==> (#[trigger] ascii_data[start + i])@.len() == out_cols(
            frame,
            width,
        )
    &&& forall|i: int, j: int|
        0 <= i < out_rows(frame, width) && 0 <= j < out_cols(frame, width)
            ==> #[trigger] ascii_data[start + i]@[j] == with_glyph(
            cell_sample(frame, width, i, j),
            glyphs,
        )
}

/// Samples a frame for `width` columns and appends the rows of samples,
/// each with its glyph from `glyphs`, to `ascii_data`. Appends nothing for a
/// frame without pixels or a width below one.
pub fn assign_glyphs(
    ascii_data: &mut Vec<Vec<(BlockSample, char)>>,
    glyphs: &Vec<char>,
    frame_data: &PixelBuffer,
    width: i32,
)
    requires
        glyphs@.len() >= 1,
    ensures
        holds_frame(
            final(ascii_data)@,
            old(ascii_data)@.len() as int,
            glyphs@,
            *frame_data,
            width as int,
        ),
        forall|i: int|
            0 <= i < old(ascii_data)@.len() ==> final(ascii_data)@[i] == old(ascii_data)@[i],
{
    if frame_data.is_empty() || width < 1 {
        return ;
    }
    let ghost start: int = ascii_data@.len() as int;
    let ghost before: Seq<Vec<(BlockSample, char)>> = ascii_data@;
    let img_w: i32 = frame_data.width() as i32;
    let block: (u32, u32) = calculate_block_size(img_w, width);
    let samples: Vec<Vec<BlockSample>> = get_blocks_data(frame_data, block);
    let n: usize = glyphs.len();
    let mut i: usize = 0;
    while i < samples.len()
        invariant
            n == glyphs@.len(),
            n >= 1,
            width >= 1,
            i <= samples@.len(),
            samples@.len() == out_rows(*frame_data, width as int),
            block.0 == frame_block_w(*frame_data, width as int),
            block.1 == frame_block_h(*frame_data, width as int),
            forall|a: int|
                0 <= a < samples@.len() ==> (#[trigger] samples@[a])@.len() == out_cols(
                    *frame_data,
                    width as int,
                ),
            forall|a: int, b: int|
                0 <= a < samples@.len() && 0 <= b < samples@[a]@.len()
                    ==> #[trigger] samples@[a]@[b] == cell_sample(
                    *frame_data,
                    width as int,
                    a,
                    b,
                ),
            start == before.len(),
            ascii_data@.len() == start + i,
            forall|a: int| 0 <= a < start ==> ascii_data@[a] == before[a],
            forall|a: int|
                0 <= a < i ==> (#[trigger] ascii_data@[start + a])@.len() == out_cols(
                    *frame_data,
                    width as int,
                ),
            forall|a: int, b: int|
                0 <= a < i && 0 <= b < out_cols(*frame_data, width as int)
                    ==> #[trigger] ascii_data@[start + a]@[b] == with_glyph(
                    cell_sample(*frame_data, width as int, a, b),
                    glyphs@,
                ),
        decreases samples@.len() - i,
    {
        let mut row: Vec<(BlockSample, char)> = Vec::new();
        let mut j: usize = 0;
        while j < samples[i].len()
            invariant
                n == glyphs@.len(),
                n >= 1,
                i < samples@.len(),
                j <= samples@[i as int]@.len(),
                samples@[i as int]@.len() == out_cols(*frame_data, width as int),
                forall|b: int|
                    0 <= b < samples@[i as int]@.len() ==> #[trigger] samples@[i as int]@[b]
                        == cell_sample(*frame_data, width as int, i as int, b),
                row@.len() == j,
                forall|b: int|
                    0 <= b < j ==> #[trigger] row@[b] == with_glyph(
                        cell_sample(*frame_data, width as int, i as int, b),
                        glyphs@,
                    ),
            decreases samples@[i as int]@.len() - j,
        {
            let element: BlockSample = samples[i][j];
            let index: usize = map_luminance(element.lum_milli, n);
            row.push((element, glyphs[index]));
            j += 1;
        }
        ascii_data.push(row);
        i += 1;
    }
}

/// Samples a frame for `width` columns and appends the rows of samples,
/// each with its glyph from `char_set`, to `ascii_data`. The charset holds
/// at least one glyph.
pub fn assign_chars(
    ascii_data: &mut Vec<Vec<(BlockSample, char)>>,
    char_set: &str,
    frame_data: &PixelBuffer,
    width: i32,
)
    requires
        char_set@.len() >= 1,
    ensures
        holds_frame(
            final(ascii_data)@,
            old(ascii_data)@.len() as int,
            char_set@,
            *frame_data,
            width as int,
        ),
        forall|i: int|
            0 <= i < old(ascii_data)@.len() ==> final(ascii_data)@[i] == old(ascii_data)@[i],
{
    let glyphs: Vec<char> = chars_of(char_set);
    assign_glyphs(ascii_data, &glyphs, frame_data, width);
}

/// The cell of a sample. `glyph` is the glyph of the sample's luminance and
/// `draw` what chance decided for the cell: in glitch mode a drawn colour
/// replaces the cell's colour, and a drawn position within the charset
/// replaces the glyph with the one at that position. No other mode looks at
/// the draw.
pub open spec fn cell_spec(
    sample: BlockSample,
    glyph: char,
    glyphs: Seq<char>,
    mode: ArtMode,
    x: int,
    y: int,
    frame_count: int,
    draw: GlitchDraw,
) -> RenderCell {
    RenderCell {
        glyph: match draw.glyph {
            Some(k) => if mode == ArtMode::Glitch && k < glyphs.len() {
                glyphs[k as int]
            } else {
                glyph
            },
            None => glyph,
        },
        color: color_spec(sample, mode, x, y, frame_count, draw.color),
    }
}

/// The cell of a sample at column `x` and row `y` of the grid.
pub fn render_cell(
    sample: &BlockSample,
    glyph: char,
    glyphs: &Vec<char>,
    mode: &ArtMode,
    x: usize,
    y: usize,
    frame_count: usize,
    draw: GlitchDraw,
) -> (cell: RenderCell)
    ensures
        cell == cell_spec(
            *sample,
            glyph,
            glyphs@,
            *mode,
            x as int,
            y as int,
            frame_count as int,
            draw,
        ),
{
    let color: Rgb = color_for(sample, mode, x, y, frame_count, draw.color);
    let shown: char = match draw.glyph {
        Some(k) => if *mode == ArtMode::Glitch && k < glyphs.len() {
            glyphs[k]
        } else {
            glyph
        },
        None => glyph,
    };
    RenderCell { glyph: shown, color }
}

/// The cell in row `i` and column `j` of the rendering of a frame, for
/// what chance decided for it.
pub open spec fn rendered_cell(
    frame: PixelBuffer,
    config: SessionConfig,
    i: int,
    j: int,
    draw: GlitchDraw,
) -> RenderCell {
    let glyphs = active_glyphs_spec(config.charset, config.invert_charset);
    let sample = cell_sample(frame, config.width as int, i, j);
    cell_spec(
        sample,
        glyph_for(sample, glyphs),
        glyphs,
        config.mode,
        j,
        i,
        config.frame_count as int,
        draw,
    )
}

/// `cell` is the cell in row `i` and column `j` of the rendering of a frame
/// for some draw.
pub open spec fn is_cell_of(
    cell: RenderCell,
    frame: PixelBuffer,
    config: SessionConfig,
    i: int,
    j: int,
) -> bool {
    exists|draw: GlitchDraw| cell == #[trigger] rendered_cell(frame, config, i, j, draw)
}

/// `grid` is a rendering of the frame under the given settings: it has one
/// row of cells for each row of blocks, and each cell is that of its block
/// for some draw. Outside glitch mode each cell is that of its block
/// without any draw.
pub open spec fn renders(grid: RenderGrid, frame: PixelBuffer, config: SessionConfig) -> bool {
    &&& grid.rows@.len() == out_rows(frame, config.width as int)
    &&& forall|i: int|
        0 <= i < grid.rows@.len() ==> (#[trigger] grid.rows@[i])@.len() == out_cols(
            frame,
            config.width as int,
        )
    &&& forall|i: int, j: int|
        0 <= i < grid.rows@.len() && 0 <= j < grid.rows@[i]@.len() ==> is_cell_of(
            #[trigger] grid.rows@[i]@[j],
            frame,
            config,
            i,
            j,
        )
    &&& config.mode != ArtMode::Glitch ==> forall|i: int, j: int|
        0 <= i < grid.rows@.len() && 0 <= j < grid.rows@[i]@.len() ==> #[trigger] grid.rows@[i]@[j]
            == rendered_cell(frame, config, i, j, GlitchDraw::quiet())
}

/// A frame without pixels is rendered to the grid without rows.
pub proof fn lemma_blank_frame_renders_empty(
    grid: RenderGrid,
    frame: PixelBuffer,
    config: SessionConfig,
)
    requires
        renders(grid, frame, config),
        frame.is_blank(),
    ensures
        grid.rows@.len() == 0,
{
}

/// A frame of a single colour renders, outside glitch mode, to cells that
/// are all alike: each has the glyph of that colour's luminance, and the
/// colour that the mode gives the colour's sample at the cell's place.
pub proof fn lemma_uniform_frame_renders_alike(
    grid: RenderGrid,
    frame: PixelBuffer,
    config: SessionConfig,
    c: Rgb,
    i: int,
    j: int,
)
    requires
        renders(grid, frame, config),
        config.mode != ArtMode::Glitch,
        forall|x: int, y: int|
            0 <= x < frame.cols() && 0 <= y < frame.rows() ==> #[trigger] frame.pixel(x, y) == c,
        0 <= i < grid.rows@.len(),
        0 <= j < grid.rows@[i]@.len(),
    ensures
        grid.rows@[i]@[j].glyph == glyph_for(
            sample_of(c.r as int, c.g as int, c.b as int),
            active_glyphs_spec(config.charset, config.invert_charset),
        ),
        grid.rows@[i]@[j].color == color_spec(
            sample_of(c.r as int, c.g as int, c.b as int),
            config.mode,
            j,
            i,
            config.frame_count as int,
            None,
        ),
{
    let width = config.width as int;
    let bw = frame_block_w(frame, width);
    let bh = frame_block_h(frame, width);
    assert(grid.rows@[i]@.len() == out_cols(frame, width));
    lemma_block_starts_inside(frame.rows() as int, bh, i);
    lemma_block_starts_inside(frame.cols() as int, bw, j);
    lemma_uniform_block(frame, j * bw, i * bh, bw, bh, c);
    assert(grid.rows@[i]@[j] == rendered_cell(frame, config, i, j, GlitchDraw::quiet()));
}

/// Whatever chance decides, every glyph of a rendering comes from the
/// charset in use.
pub proof fn lemma_rendered_glyph_in_charset(
    grid: RenderGrid,
    frame: PixelBuffer,
    config: SessionConfig,
    i: int,
    j: int,
)
    requires
        renders(grid, frame, config),
        0 <= i < grid.rows@.len(),
        0 <= j < grid.rows@[i]@.len(),
    ensures
        active_glyphs_spec(config.charset, config.invert_charset).contains(grid.rows@[i]@[j].glyph),
{
    let glyphs = active_glyphs_spec(config.charset, config.invert_charset);
    let cell = grid.rows@[i]@[j];
    assert(is_cell_of(cell, frame, config, i, j));
    let draw = choose|draw: GlitchDraw| cell == #[trigger] rendered_cell(frame, config, i, j, draw);
    let sample = cell_sample(frame, config.width as int, i, j);
    let own = map_luminance_spec(sample.lum_milli as int, glyphs.len() as int);
    lemma_glyphs_nonempty(config.charset);
    lemma_map_luminance_in_range(sample.lum_milli as int, glyphs.len() as int);
    assert(glyphs[own] == glyph_for(sample, glyphs));
    match draw.glyph {
        Some(k) => {
            if config.mode == ArtMode::Glitch && k < glyphs.len() {
                assert(cell.glyph == glyphs[k as int]);
            } else {
                assert(cell.glyph == glyphs[own]);
            }
        },
        None => {
            assert(cell.glyph == glyphs[own]);
        },
    }
}

/// Renders a frame under the given settings. In glitch mode the draws for
/// each cell come from `rng`, first the colour's and then the glyph's, cell
/// by cell in reading order; in every other mode the generator is left
/// alone.
pub fn render(frame: &PixelBuffer, config: &SessionConfig, rng: &mut StdRng) -> (grid: RenderGrid)
    ensures
        renders(grid, *frame, *config),
        frame.is_blank() ==> grid.rows@.len() == 0,
        config.mode != ArtMode::Glitch ==> *final(rng) == *old(rng),
{
    let glyphs: Vec<char> = active_glyphs(config.charset, config.invert_charset);
    let mut cells: Vec<Vec<(BlockSample, char)>> = Vec::new();
    assign_glyphs(&mut cells, &glyphs, frame, config.width);
    let glitch: bool = config.mode == ArtMode::Glitch;
    let mut rows: Vec<Vec<RenderCell>> = Vec::new();
    let mut y: usize = 0;
    while y < cells.len()
        invariant
            glyphs@ == active_glyphs_spec(config.charset, config.invert_charset),
            glyphs@.len() >= 1,
            glitch == (config.mode == ArtMode::Glitch),
            !glitch ==> *rng == *old(rng),
            holds_frame(cells@, 0, glyphs@, *frame, config.width as int),
            y <= cells@.len(),
            rows@.len() == y,
            forall|i: int|
                0 <= i < y ==> (#[trigger] rows@[i])@.len() == out_cols(
                    *frame,
                    config.width as int,
                ),
            forall|i: int, j: int|
                0 <= i < y && 0 <= j < rows@[i]@.len() ==> is_cell_of(
                    #[trigger] rows@[i]@[j],
                    *frame,
                    *config,
                    i,
                    j,
                ),
            !glitch ==> forall|i: int, j: int|
                0 <= i < y && 0 <= j < rows@[i]@.len() ==> #[trigger] rows@[i]@[j] == rendered_cell(
                    *frame,
                    *config,
                    i,
                    j,
                    GlitchDraw::quiet(),
                ),
        decreases cells@.len() - y,
    {
        let mut row: Vec<RenderCell> = Vec::new();
        let mut x: usize = 0;
        assert(cells@[0 + y as int]@.len() == out_cols(*frame, config.width as int));
        while x < cells[y].len()
            invariant
                glyphs@ == active_glyphs_spec(config.charset, config.invert_charset),
                glyphs@.len() >= 1,
                glitch == (config.mode == ArtMode::Glitch),
                !glitch ==> *rng == *old(rng),
                holds_frame(cells@, 0, glyphs@, *frame, config.width as int),
                y < cells@.len(),
                cells@[y as int]@.len() == out_cols(*frame, config.width as int),
                x <= cells@[y as int]@.len(),
                row@.len() == x,
                forall|j: int|
                    0 <= j < x ==> is_cell_of(#[trigger] row@[j], *frame, *config, y as int, j),
                !glitch ==> forall|j: int|
                    0 <= j < x ==> #[trigger] row@[j] == rendered_cell(
                        *frame,
                        *config,
                        y as int,
                        j,
                        GlitchDraw::quiet(),
                    ),
            decreases cells@[y as int]@.len() - x,
        {
            let entry: (BlockSample, char) = cells[y][x];
            assert(cells@[0 + y as int]@[x as int] == with_glyph(
                cell_sample(*frame, config.width as int, y as int, x as int),
                glyphs@,
            ));
            let draw: GlitchDraw = if glitch {
                let color: Option<Rgb> = draw_color(rng);
                let glyph: Option<usize> = draw_glyph(rng, glyphs.len());
                GlitchDraw { color, glyph }
            } else {
                GlitchDraw::none()
            };
            let cell: RenderCell = render_cell(
                &entry.0,
                entry.1,
                &glyphs,
                &config.mode,
                x,
                y,
                config.frame_count,
                draw,
            );
            assert(cell == rendered_cell(*frame, *config, y as int, x as int, draw));
            assert(is_cell_of(cell, *frame, *config, y as int, x as int));
            row.push(cell);
            x += 1;
        }
        rows.push(row);
        y += 1;
    }
    RenderGrid { rows }
}

} // verus!
