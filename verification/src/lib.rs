//! Character-grid rendering of pixel frames: block sampling, glyph
//! selection, colour modes and the session state that drives them.
//!
//! A frame is cut into blocks ([`sample`]), each block is reduced to a mean
//! colour and its luminance, the luminance picks a glyph ([`glyph`]) from a
//! character set ([`charset`]), and a colour mode ([`mode`], [`color`])
//! turns the sample into the glyph's colour ([`render`]). The settings of a
//! running session and the events that change them are in [`session`].

pub mod charset;
pub mod color;
pub mod glyph;
pub mod mode;
pub mod noise;
pub mod pixel;
pub mod render;
pub mod sample;
pub mod session;

pub use charset::CharSet;
pub use mode::ArtMode;
pub use pixel::{PixelBuffer, Rgb};
pub use render::{assign_chars, render, RenderCell, RenderGrid};
pub use sample::{calculate_block_size, BlockSample};
pub use session::{Args, SessionConfig};
