use rand::rngs::StdRng;
use rand::SeedableRng;
use shellart::charset::CharSet;
use shellart::mode::ArtMode;
use shellart::pixel::PixelBuffer;
use shellart::render::render;
use shellart::session::{
    after_read, key_event, Args, CaptureStep, ConfigError, InputEvent, Key, LoopControl,
    SessionConfig, StatusOverlay,
};

fn args(width: i32) -> Args {
    Args {
        charset: CharSet::Default,
        mode: ArtMode::Standard,
        width,
        device: 0,
        input: None,
        flip: false,
        invert_charset: false,
        terminal: false,
    }
}

fn started(width: i32) -> SessionConfig {
    SessionConfig::new(&args(width)).unwrap()
}

fn small_frame() -> PixelBuffer {
    PixelBuffer::new(4, 4, vec![200; 48]).unwrap()
}

#[test]
fn session_starts_from_its_arguments() {
    let a = Args {
        charset: CharSet::Blocks,
        mode: ArtMode::Neon,
        width: 150,
        device: 2,
        input: Some(String::from("clip.mp4")),
        flip: true,
        invert_charset: true,
        terminal: true,
    };
    let config = SessionConfig::new(&a).unwrap();
    assert_eq!(
        config,
        SessionConfig {
            charset: CharSet::Blocks,
            mode: ArtMode::Neon,
            width: 150,
            flip: true,
            invert_charset: true,
            show_ui: true,
            frame_count: 0,
        }
    );
}

#[test]
fn session_refuses_a_width_below_one() {
    assert_eq!(SessionConfig::new(&args(0)), Err(ConfigError::NonPositiveWidth));
    assert_eq!(SessionConfig::new(&args(-1)), Err(ConfigError::NonPositiveWidth));
    assert_eq!(SessionConfig::new(&args(i32::MIN)), Err(ConfigError::NonPositiveWidth));
    assert!(SessionConfig::new(&args(1)).is_ok());
    assert!(SessionConfig::new(&args(i32::MAX)).is_ok());
}

#[test]
fn defaults_are_the_default_charset_and_standard_mode() {
    assert_eq!(CharSet::default(), CharSet::Default);
    assert_eq!(ArtMode::default(), ArtMode::Standard);
}

#[test]
fn keys_stand_for_events() {
    assert_eq!(key_event(Key::Char('q')), Some(InputEvent::Quit));
    assert_eq!(key_event(Key::Escape), Some(InputEvent::Quit));
    assert_eq!(key_event(Key::Char('m')), Some(InputEvent::CycleMode));
    assert_eq!(key_event(Key::Char('c')), Some(InputEvent::CycleCharset));
    assert_eq!(key_event(Key::Char('+')), Some(InputEvent::Widen));
    assert_eq!(key_event(Key::Char('=')), Some(InputEvent::Widen));
    assert_eq!(key_event(Key::Char('-')), Some(InputEvent::Narrow));
    assert_eq!(key_event(Key::Char('_')), Some(InputEvent::Narrow));
    assert_eq!(key_event(Key::Char('h')), Some(InputEvent::ToggleUi));
}

#[test]
fn other_keys_stand_for_nothing() {
    assert_eq!(key_event(Key::Other), None);
    for c in ['Q', 'M', 'C', 'H', 'f', ' ', '0', 'x', '░'] {
        assert_eq!(key_event(Key::Char(c)), None);
    }
}

#[test]
fn quit_ends_the_session_and_changes_nothing() {
    let mut config = started(150);
    let before = config;
    assert_eq!(config.apply(InputEvent::Quit), LoopControl::Terminate);
    assert_eq!(config, before);
}

#[test]
fn other_events_let_the_session_go_on() {
    for event in [
        InputEvent::CycleMode,
        InputEvent::CycleCharset,
        InputEvent::Widen,
        InputEvent::Narrow,
        InputEvent::ToggleFlip,
        InputEvent::ToggleUi,
    ] {
        let mut config = started(150);
        assert_eq!(config.apply(event), LoopControl::Continue);
        assert_ne!(config, started(150));
    }
}

#[test]
fn cycling_changes_mode_and_charset_only() {
    let mut config = started(150);
    config.apply(InputEvent::CycleMode);
    assert_eq!(config, SessionConfig { mode: ArtMode::Grayscale, ..started(150) });
    config.apply(InputEvent::CycleCharset);
    assert_eq!(
        config,
        SessionConfig { mode: ArtMode::Grayscale, charset: CharSet::Light, ..started(150) }
    );
    for _ in 0..8 {
        config.apply(InputEvent::CycleMode);
    }
    for _ in 0..10 {
        config.apply(InputEvent::CycleCharset);
    }
    assert_eq!(config, started(150));
}

#[test]
fn width_moves_by_two() {
    let mut config = started(150);
    config.apply(InputEvent::Widen);
    assert_eq!(config.width, 152);
    config.apply(InputEvent::Narrow);
    config.apply(InputEvent::Narrow);
    assert_eq!(config.width, 148);
}

#[test]
fn width_stops_at_five_hundred() {
    for (from, to) in [(497, 499), (498, 500), (499, 500), (500, 500)] {
        let mut config = started(from);
        config.apply(InputEvent::Widen);
        assert_eq!(config.width, to);
    }
    let mut wide = started(i32::MAX);
    wide.apply(InputEvent::Widen);
    assert_eq!(wide.width, 500);
    let mut wider = started(9000);
    wider.apply(InputEvent::Narrow);
    assert_eq!(wider.width, 500);
}

#[test]
fn width_stops_at_ten() {
    for (from, to) in [(13, 11), (12, 10), (11, 10), (10, 10)] {
        let mut config = started(from);
        config.apply(InputEvent::Narrow);
        assert_eq!(config.width, to);
    }
    let mut narrow = started(1);
    narrow.apply(InputEvent::Narrow);
    assert_eq!(narrow.width, 10);
    let mut narrower = started(3);
    narrower.apply(InputEvent::Widen);
    assert_eq!(narrower.width, 10);
    let mut lowest = SessionConfig { width: i32::MIN, ..started(10) };
    lowest.apply(InputEvent::Narrow);
    assert_eq!(lowest.width, 10);
}

#[test]
fn toggles_flip_back_and_forth() {
    let mut config = started(150);
    config.apply(InputEvent::ToggleFlip);
    assert!(config.flip);
    config.apply(InputEvent::ToggleFlip);
    assert!(!config.flip);
    config.apply(InputEvent::ToggleUi);
    assert!(!config.show_ui);
    assert_eq!(config.overlay(), None);
    config.apply(InputEvent::ToggleUi);
    assert!(config.show_ui);
}

#[test]
fn overlay_shows_mode_charset_and_width() {
    let config = SessionConfig { mode: ArtMode::Cga, charset: CharSet::Retro, ..started(42) };
    assert_eq!(
        config.overlay(),
        Some(StatusOverlay { mode: ArtMode::Cga, charset: CharSet::Retro, width: 42 })
    );
}

#[test]
fn empty_read_rewinds_once_and_then_skips() {
    assert_eq!(after_read(false, false), CaptureStep::Deliver);
    assert_eq!(after_read(false, true), CaptureStep::Deliver);
    assert_eq!(after_read(true, false), CaptureStep::Rewind);
    assert_eq!(after_read(true, true), CaptureStep::Skip);
}

#[test]
fn tick_passes_over_an_empty_frame() {
    let mut rng = StdRng::seed_from_u64(1);
    for mode in [ArtMode::Standard, ArtMode::Glitch] {
        let mut config = SessionConfig { mode, frame_count: 41, ..started(150) };
        let before = config;
        assert!(config.tick(&PixelBuffer::empty(), &mut rng).is_none());
        assert_eq!(config, before);
    }
    assert_eq!(rng, StdRng::seed_from_u64(1));
}

#[test]
fn tick_renders_and_counts_a_frame() {
    let mut rng = StdRng::seed_from_u64(1);
    let mut config = SessionConfig { mode: ArtMode::Rainbow, frame_count: 41, ..started(2) };
    let before = config;
    let shown = config.tick(&small_frame(), &mut rng).unwrap();
    assert_eq!(shown.grid, render(&small_frame(), &before, &mut rng));
    assert_eq!(
        shown.overlay,
        Some(StatusOverlay { mode: ArtMode::Rainbow, charset: CharSet::Default, width: 2 })
    );
    assert_eq!(config, SessionConfig { frame_count: 42, ..before });
}

#[test]
fn tick_hides_the_overlay_when_asked() {
    let mut rng = StdRng::seed_from_u64(1);
    let mut config = started(2);
    config.apply(InputEvent::ToggleUi);
    let shown = config.tick(&small_frame(), &mut rng).unwrap();
    assert_eq!(shown.overlay, None);
    assert_eq!(shown.grid.rows.len(), 1);
}

#[test]
fn frame_counter_wraps_around() {
    let mut rng = StdRng::seed_from_u64(1);
    let mut config =
        SessionConfig { mode: ArtMode::Rainbow, frame_count: usize::MAX, ..started(2) };
    let last = config.tick(&small_frame(), &mut rng).unwrap();
    assert_eq!(config.frame_count, 0);
    let first = config.tick(&small_frame(), &mut rng).unwrap();
    assert_eq!(config.frame_count, 1);
    assert_eq!(last.grid.rows.len(), first.grid.rows.len());
    // the hue at counter zero is that of the position alone
    assert_eq!(first.grid.rows[0][0].color, shellart::pixel::Rgb { r: 255, g: 0, b: 0 });
    let mut counter = SessionConfig { frame_count: usize::MAX - 1, ..started(2) };
    counter.advance_frame();
    assert_eq!(counter.frame_count, usize::MAX);
    counter.advance_frame();
    assert_eq!(counter.frame_count, 0);
}
