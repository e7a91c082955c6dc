//! The state of an interactive session, the events that change it, and what
//! one turn of the session loop decides.

use vstd::prelude::*;
use rand::rngs::StdRng;
use crate::charset::CharSet;
use crate::color::rainbow_hue;
use crate::mode::ArtMode;
use crate::pixel::PixelBuffer;
use crate::render::{render, renders, RenderGrid};

verus! {

/// Narrowest output that the session narrows to.
pub const MIN_WIDTH: i32 = 10;

/// Widest output that the session widens to.
pub const MAX_WIDTH: i32 = 500;

/// Number of columns that the width moves by at a time.
pub const WIDTH_STEP: i32 = 2;

/// What a session is started with.
#[derive(Clone, Debug)]
pub struct Args {
    /// Charset to use.
    pub charset: CharSet,
    /// Colour mode.
    pub mode: ArtMode,
    /// Width of the output in columns.
    pub width: i32,
    /// Camera device index.
    pub device: i32,
    /// Path to an image or video file, in place of the camera.
    pub input: Option<String>,
    /// Flip the image horizontally.
    pub flip: bool,
    /// Use the charset from its last glyph to its first.
    pub invert_charset: bool,
    /// Render to the terminal.
    pub terminal: bool,
}

/// Why a session cannot start.
#[derive(Clone, Copy, Debug, PartialEq, Eq, Structural)]
pub enum ConfigError {
    /// The width is below one column.
    NonPositiveWidth,
}

/// The settings of a running session.
#[derive(Clone, Copy, Debug, PartialEq, Eq, Structural)]
pub struct SessionConfig {
    pub charset: CharSet,
    pub mode: ArtMode,
    /// Number of columns to render to.
    pub width: i32,
    /// Mirror each frame horizontally.
    pub flip: bool,
    /// Use the charset from its last glyph to its first.
    pub invert_charset: bool,
    /// Show the status overlay.
    pub show_ui: bool,
    /// Number of frames rendered so far; wraps around.
    pub frame_count: usize,
}

/// A key of the keyboard, as far as the session tells keys apart.
#[derive(Clone, Copy, Debug, PartialEq, Eq, Structural)]
pub enum Key {
    Char(char),
    Escape,
    Other,
}

/// What the user can ask of a running session.
#[derive(Clone, Copy, Debug, PartialEq, Eq, Structural)]
pub enum InputEvent {
    Quit,
    CycleMode,
    CycleCharset,
    Widen,
    Narrow,
    ToggleFlip,
    ToggleUi,
}

/// Whether the session loop goes on.
#[derive(Clone, Copy, Debug, PartialEq, Eq, Structural)]
pub enum LoopControl {
    Continue,
    Terminate,
}

/// What to do with what the capture source returned.
#[derive(Clone, Copy, Debug, PartialEq, Eq, Structural)]
pub enum CaptureStep {
    /// The frame has pixels: render it.
    Deliver,
    /// The source is at its end: go back to its first frame and read again.
    Rewind,
    /// Nothing to render in this turn.
    Skip,
}

/// The status line's content.
#[derive(Clone, Copy, Debug, PartialEq, Eq, Structural)]
pub struct StatusOverlay {
    pub mode: ArtMode,
    pub charset: CharSet,
    pub width: i32,
}

/// What one turn hands to the display.
#[derive(Debug)]
pub struct Presentation {
    pub grid: RenderGrid,
    pub overlay: Option<StatusOverlay>,
}

/// A width brought into the range that the session keeps it in.
pub open spec fn clamp_width(width: int) -> int {
    if width < MIN_WIDTH {
        MIN_WIDTH as int
    } else if width > MAX_WIDTH {
        MAX_WIDTH as int
    } else {
        width
    }
}

/// The event that a key stands for, if it stands for one.
pub open spec fn key_event_spec(key: Key) -> Option<InputEvent> {
    match key {
        Key::Escape => Some(InputEvent::Quit),
        Key::Other => None,
        Key::Char(c) => if c == 'q' {
            Some(InputEvent::Quit)
        } else if c == 'm' {
            Some(InputEvent::CycleMode)
        } else if c == 'c' {
            Some(InputEvent::CycleCharset)
        } else if c == '+' || c == '=' {
            Some(InputEvent::Widen)
        } else if c == '-' || c == '_' {
            Some(InputEvent::Narrow)
        } else if c == 'h' {
            Some(InputEvent::ToggleUi)
        } else {
            None
        },
    }
}

/// The event that a key stands for, if it stands for one.
pub fn key_event(key: Key) -> (event: Option<InputEvent>)
    ensures
        event == key_event_spec(key),
{
    match key {
        Key::Escape => Some(InputEvent::Quit),
        Key::Other => None,
        Key::Char(c) => if c == 'q' {
            Some(InputEvent::Quit)
        } else if c == 'm' {
            Some(InputEvent::CycleMode)
        } else if c == 'c' {
            Some(InputEvent::CycleCharset)
        } else if c == '+' || c == '=' {
            Some(InputEvent::Widen)
        } else if c == '-' || c == '_' {
            Some(InputEvent::Narrow)
        } else if c == 'h' {
            Some(InputEvent::ToggleUi)
        } else {
            None
        },
    }
}

/// What to do after a read from the capture source. An empty read sends
/// the source back to its start once; a second empty read in the same turn
/// skips the turn.
pub fn after_read(frame_empty: bool, rewound: bool) -> (step: CaptureStep)
    ensures
        !frame_empty ==> step == CaptureStep::Deliver,
        frame_empty && !rewound ==> step == CaptureStep::Rewind,
        frame_empty && rewound ==> step == CaptureStep::Skip,
{
    if !frame_empty {
        CaptureStep::Deliver
    } else if !rewound {
        CaptureStep::Rewind
    } else {
        CaptureStep::Skip
    }
}

impl SessionConfig {
    /// The settings that a session starts with.
    pub open spec fn initial(args: Args) -> SessionConfig {
        SessionConfig {
            charset: args.charset,
            mode: args.mode,
            width: args.width,
            flip: args.flip,
            invert_charset: args.invert_charset,
            show_ui: true,
            frame_count: 0,
        }
    }

    /// The settings after an event.
    pub open spec fn after_event(self, event: InputEvent) -> SessionConfig {
        match event {
            InputEvent::Quit => self,
            InputEvent::CycleMode => SessionConfig { mode: self.mode.successor(), ..self },
            InputEvent::CycleCharset => SessionConfig { charset: self.charset.successor(), ..self },
            InputEvent::Widen => SessionConfig {
                width: clamp_width(self.width + WIDTH_STEP) as i32,
                ..self
            },
            InputEvent::Narrow => SessionConfig {
                width: clamp_width(self.width - WIDTH_STEP) as i32,
                ..self
            },
            InputEvent::ToggleFlip => SessionConfig { flip: !self.flip, ..self },
            InputEvent::ToggleUi => SessionConfig { show_ui: !self.show_ui, ..self },
        }
    }

    /// The frame counter after one more frame: one up, and zero after the
    /// largest value.
    pub open spec fn next_frame_count(self) -> usize {
        if self.frame_count == usize::MAX {
            0
        } else {
            (self.frame_count + 1) as usize
        }
    }

    /// The settings after a frame was rendered.
    pub open spec fn after_frame(self) -> SessionConfig {
        SessionConfig { frame_count: self.next_frame_count(), ..self }
    }

    /// The status overlay, where it is shown.
    pub open spec fn overlay_spec(self) -> Option<StatusOverlay> {
        if self.show_ui {
            Some(StatusOverlay { mode: self.mode, charset: self.charset, width: self.width })
        } else {
            None
        }
    }

    /// The settings that a session starts with: those of `args`, the
    /// overlay shown, no frame counted. A width below one is refused.
    pub fn new(args: &Args) -> (r: Result<SessionConfig, ConfigError>)
        ensures
            args.width < 1 <==> r is Err,
            r matches Err(e) ==> e == ConfigError::NonPositiveWidth,
            r matches Ok(config) ==> config == SessionConfig::initial(*args),
    {
        if args.width < 1 {
            return Err(ConfigError::NonPositiveWidth);
        }
        Ok(
            SessionConfig {
                charset: args.charset,
                mode: args.mode,
                width: args.width,
                flip: args.flip,
                invert_charset: args.invert_charset,
                show_ui: true,
                frame_count: 0,
            },
        )
    }

    /// Applies an event to the settings and says whether the session goes
    /// on: it ends on `Quit` and on nothing else.
    pub fn apply(&mut self, event: InputEvent) -> (control: LoopControl)
        ensures
            *final(self) == old(self).after_event(event),
            control == LoopControl::Terminate <==> event == InputEvent::Quit,
            event == InputEvent::Widen || event == InputEvent::Narrow
                ==> MIN_WIDTH <= final(self).width <= MAX_WIDTH,
    {
        match event {
            InputEvent::Quit => {
                return LoopControl::Terminate;
            },
            InputEvent::CycleMode => {
                self.mode = self.mode.next();
            },
            InputEvent::CycleCharset => {
                self.charset = self.charset.next();
            },
            InputEvent::Widen => {
                self.width = if self.width > MAX_WIDTH - WIDTH_STEP {
                    MAX_WIDTH
                } else if self.width < MIN_WIDTH - WIDTH_STEP {
                    MIN_WIDTH
                } else {
                    self.width + WIDTH_STEP
                };
            },
            InputEvent::Narrow => {
                self.width = if self.width < MIN_WIDTH + WIDTH_STEP {
                    MIN_WIDTH
                } else if self.width > MAX_WIDTH + WIDTH_STEP {
                    MAX_WIDTH
                } else {
                    self.width - WIDTH_STEP
                };
            },
            InputEvent::ToggleFlip => {
                self.flip = !self.flip;
            },
            InputEvent::ToggleUi => {
                self.show_ui = !self.show_ui;
            },
        }
        LoopControl::Continue
    }

    /// The status overlay, where it is shown.
    pub fn overlay(&self) -> (o: Option<StatusOverlay>)
        ensures
            o == self.overlay_spec(),
    {
        if self.show_ui {
            Some(StatusOverlay { mode: self.mode, charset: self.charset, width: self.width })
        } else {
            None
        }
    }

    /// Counts one more frame. The counter wraps around to zero.
    pub fn advance_frame(&mut self)
        ensures
            *final(self) == old(self).after_frame(),
    {
        self.frame_count = self.frame_count.wrapping_add(1);
    }

    /// One turn of the session on the frame that the capture source gave.
    /// A frame without pixels is passed over: nothing is handed to the
    /// display and the settings stay as they are. Any other frame is
    /// rendered with the settings as they stand, handed over with the
    /// overlay, and counted.
    pub fn tick(&mut self, frame: &PixelBuffer, rng: &mut StdRng) -> (shown: Option<Presentation>)
        ensures
            frame.is_blank() ==> shown is None && *final(self) == *old(self),
            frame.is_blank() ==> *final(rng) == *old(rng),
            !frame.is_blank() ==> shown is Some && *final(self) == old(self).after_frame(),
            shown matches Some(p) ==> renders(p.grid, *frame, *old(self)),
            shown matches Some(p) ==> p.overlay == old(self).overlay_spec(),
            old(self).mode != ArtMode::Glitch ==> *final(rng) == *old(rng),
    {
        if frame.is_empty() {
            return None;
        }
        let grid: RenderGrid = render(frame, self, rng);
        let overlay: Option<StatusOverlay> = self.overlay();
        self.advance_frame();
        Some(Presentation { grid, overlay })
    }
}

/// Widening and narrowing keep the width within its range, wherever it
/// was before.
pub proof fn lemma_width_stays_in_range(config: SessionConfig, event: InputEvent)
    requires
        event == InputEvent::Widen || event == InputEvent::Narrow,
    ensures
        MIN_WIDTH <= config.after_event(event).width <= MAX_WIDTH,
{
}

/// Events other than widening and narrowing leave the width alone, and no
/// event touches the frame counter.
pub proof fn lemma_event_leaves_the_rest(config: SessionConfig, event: InputEvent)
    ensures
        config.after_event(event).frame_count == config.frame_count,
        event != InputEvent::Widen && event != InputEvent::Narrow ==> config.after_event(
            event,
        ).width == config.width,
{
}

/// The frame counter goes on past its largest value: it starts again at
/// zero, and the hue of every cell lies within the circle for the counter
/// before and after.
pub proof fn lemma_frame_count_wraps(config: SessionConfig, x: int, y: int)
    ensures
        config.frame_count == usize::MAX ==> config.after_frame().frame_count == 0,
        config.frame_count < usize::MAX ==> config.after_frame().frame_count == config.frame_count
            + 1,
        0 <= rainbow_hue(x, y, config.frame_count as int) < 360,
        0 <= rainbow_hue(x, y, config.after_frame().frame_count as int) < 360,
{
}

} // verus!
