use rand::rngs::StdRng;
use rand::SeedableRng;
use shellart::color::{color_for, get_color, hsv_to_rgb, hue_at, quantize, round_luminance};
use shellart::mode::ArtMode;
use shellart::pixel::Rgb;
use shellart::sample::BlockSample;

fn rgb(r: u8, g: u8, b: u8) -> Rgb {
    Rgb { r, g, b }
}

fn plain(sample: &BlockSample, mode: ArtMode) -> Rgb {
    color_for(sample, &mode, 0, 0, 0, None)
}

fn grey(v: u8) -> BlockSample {
    BlockSample::from_rgb(v, v, v)
}

#[test]
fn quantize_cuts_off_towards_zero_and_clamps() {
    assert_eq!(quantize(0, 1000), 0);
    assert_eq!(quantize(999, 1000), 0);
    assert_eq!(quantize(1000, 1000), 1);
    assert_eq!(quantize(254_999, 1000), 254);
    assert_eq!(quantize(255_000, 1000), 255);
    assert_eq!(quantize(9_000_000, 1000), 255);
    assert_eq!(quantize(-1, 1000), 0);
    assert_eq!(quantize(-996, 1000), 0);
    assert_eq!(quantize(i64::MIN, 1), 0);
    assert_eq!(quantize(i64::MAX, 1), 255);
}

#[test]
fn luminance_rounds_to_the_nearest_step() {
    assert_eq!(round_luminance(140_750), 141);
    assert_eq!(round_luminance(140_499), 140);
    assert_eq!(round_luminance(140_500), 141);
    assert_eq!(round_luminance(0), 0);
    assert_eq!(round_luminance(499), 0);
    assert_eq!(round_luminance(255_000), 255);
    assert_eq!(round_luminance(u32::MAX), 255);
}

#[test]
fn standard_passes_the_sample_through() {
    let s = BlockSample::from_rgb(100, 150, 200);
    assert_eq!(plain(&s, ArtMode::Standard), rgb(100, 150, 200));
    let odd = BlockSample { lum_milli: 7, r: 1, g: 2, b: 3 };
    assert_eq!(plain(&odd, ArtMode::Standard), rgb(1, 2, 3));
}

#[test]
fn grayscale_is_the_rounded_luminance() {
    let s = BlockSample::from_rgb(100, 150, 200);
    assert_eq!(plain(&s, ArtMode::Grayscale), rgb(141, 141, 141));
    assert_eq!(plain(&BlockSample::from_rgb(10, 200, 30), ArtMode::Grayscale), rgb(124, 124, 124));
    assert_eq!(plain(&grey(0), ArtMode::Grayscale), rgb(0, 0, 0));
    assert_eq!(plain(&grey(255), ArtMode::Grayscale), rgb(255, 255, 255));
}

#[test]
fn matrix_is_green_of_the_luminance() {
    assert_eq!(plain(&BlockSample::from_rgb(100, 150, 200), ArtMode::Matrix), rgb(0, 141, 0));
    assert_eq!(plain(&grey(255), ArtMode::Matrix), rgb(0, 255, 0));
    assert_eq!(plain(&grey(0), ArtMode::Matrix), rgb(0, 0, 0));
}

#[test]
fn amber_scales_green_to_sixty_nine_hundredths() {
    assert_eq!(plain(&BlockSample::from_rgb(100, 150, 200), ArtMode::Amber), rgb(141, 97, 0));
    assert_eq!(plain(&grey(255), ArtMode::Amber), rgb(255, 175, 0));
    assert_eq!(plain(&grey(64), ArtMode::Amber), rgb(64, 44, 0));
    assert_eq!(plain(&grey(0), ArtMode::Amber), rgb(0, 0, 0));
}

#[test]
fn thermal_ramps_through_four_segments() {
    assert_eq!(plain(&grey(0), ArtMode::Thermal), rgb(0, 0, 255));
    assert_eq!(plain(&grey(50), ArtMode::Thermal), rgb(0, 200, 255));
    assert_eq!(plain(&grey(64), ArtMode::Thermal), rgb(0, 255, 255));
    assert_eq!(plain(&BlockSample::from_rgb(250, 3, 251), ArtMode::Thermal), rgb(0, 255, 90));
    assert_eq!(plain(&grey(120), ArtMode::Thermal), rgb(0, 255, 31));
    assert_eq!(plain(&grey(128), ArtMode::Thermal), rgb(0, 255, 0));
    assert_eq!(plain(&BlockSample::from_rgb(100, 150, 200), ArtMode::Thermal), rgb(51, 255, 0));
    assert_eq!(plain(&grey(170), ArtMode::Thermal), rgb(168, 255, 0));
    assert_eq!(plain(&grey(192), ArtMode::Thermal), rgb(255, 255, 0));
    assert_eq!(plain(&grey(255), ArtMode::Thermal), rgb(255, 3, 0));
}

#[test]
fn thermal_segment_ends_do_not_go_below_zero() {
    let s = BlockSample { lum_milli: 127_999, r: 0, g: 0, b: 0 };
    assert_eq!(plain(&s, ArtMode::Thermal), rgb(0, 255, 0));
    let t = BlockSample { lum_milli: 63_999, r: 0, g: 0, b: 0 };
    assert_eq!(plain(&t, ArtMode::Thermal), rgb(0, 255, 255));
    let u = BlockSample { lum_milli: 191_999, r: 0, g: 0, b: 0 };
    assert_eq!(plain(&u, ArtMode::Thermal), rgb(255, 255, 0));
    let beyond = BlockSample { lum_milli: u32::MAX, r: 0, g: 0, b: 0 };
    assert_eq!(plain(&beyond, ArtMode::Thermal), rgb(255, 0, 0));
}

#[test]
fn neon_blends_through_three_segments() {
    assert_eq!(plain(&grey(0), ArtMode::Neon), rgb(0, 0, 40));
    assert_eq!(plain(&grey(50), ArtMode::Neon), rgb(11, 0, 166));
    assert_eq!(plain(&grey(64), ArtMode::Neon), rgb(15, 0, 201));
    assert_eq!(plain(&grey(85), ArtMode::Neon), rgb(255, 0, 255));
    assert_eq!(plain(&BlockSample::from_rgb(10, 200, 30), ArtMode::Neon), rgb(255, 0, 197));
    assert_eq!(plain(&BlockSample::from_rgb(100, 150, 200), ArtMode::Neon), rgb(255, 0, 171));
    assert_eq!(plain(&grey(170), ArtMode::Neon), rgb(255, 0, 255));
    assert_eq!(plain(&grey(190), ArtMode::Neon), rgb(195, 60, 255));
    assert_eq!(plain(&grey(192), ArtMode::Neon), rgb(189, 66, 255));
    assert_eq!(plain(&grey(255), ArtMode::Neon), rgb(0, 255, 255));
    let beyond = BlockSample { lum_milli: u32::MAX, r: 0, g: 0, b: 0 };
    assert_eq!(plain(&beyond, ArtMode::Neon), rgb(0, 255, 255));
}

#[test]
fn cga_picks_one_of_four_colours() {
    assert_eq!(plain(&grey(0), ArtMode::Cga), rgb(0, 0, 0));
    assert_eq!(plain(&grey(49), ArtMode::Cga), rgb(0, 0, 0));
    assert_eq!(plain(&grey(50), ArtMode::Cga), rgb(255, 85, 255));
    assert_eq!(plain(&grey(119), ArtMode::Cga), rgb(255, 85, 255));
    assert_eq!(plain(&grey(120), ArtMode::Cga), rgb(85, 255, 255));
    assert_eq!(plain(&grey(189), ArtMode::Cga), rgb(85, 255, 255));
    assert_eq!(plain(&grey(190), ArtMode::Cga), rgb(255, 255, 255));
    assert_eq!(plain(&grey(255), ArtMode::Cga), rgb(255, 255, 255));
    let edge = BlockSample { lum_milli: 49_999, r: 9, g: 9, b: 9 };
    assert_eq!(plain(&edge, ArtMode::Cga), rgb(0, 0, 0));
}

#[test]
fn hsv_at_full_saturation_and_value() {
    assert_eq!(hsv_to_rgb(0, 1000, 1000), rgb(255, 0, 0));
    assert_eq!(hsv_to_rgb(10, 1000, 1000), rgb(255, 42, 0));
    assert_eq!(hsv_to_rgb(20, 1000, 1000), rgb(255, 85, 0));
    assert_eq!(hsv_to_rgb(59, 1000, 1000), rgb(255, 250, 0));
    assert_eq!(hsv_to_rgb(60, 1000, 1000), rgb(255, 255, 0));
    assert_eq!(hsv_to_rgb(61, 1000, 1000), rgb(250, 255, 0));
    assert_eq!(hsv_to_rgb(119, 1000, 1000), rgb(4, 255, 0));
    assert_eq!(hsv_to_rgb(120, 1000, 1000), rgb(0, 255, 0));
    assert_eq!(hsv_to_rgb(150, 1000, 1000), rgb(0, 255, 127));
    assert_eq!(hsv_to_rgb(180, 1000, 1000), rgb(0, 255, 255));
    assert_eq!(hsv_to_rgb(200, 1000, 1000), rgb(0, 170, 255));
    assert_eq!(hsv_to_rgb(240, 1000, 1000), rgb(0, 0, 255));
    assert_eq!(hsv_to_rgb(290, 1000, 1000), rgb(212, 0, 255));
    assert_eq!(hsv_to_rgb(300, 1000, 1000), rgb(255, 0, 255));
    assert_eq!(hsv_to_rgb(330, 1000, 1000), rgb(255, 0, 127));
    assert_eq!(hsv_to_rgb(359, 1000, 1000), rgb(255, 0, 4));
}

#[test]
fn hsv_with_less_saturation_and_value() {
    assert_eq!(hsv_to_rgb(0, 500, 500), rgb(127, 63, 63));
    assert_eq!(hsv_to_rgb(10, 500, 500), rgb(127, 74, 63));
    assert_eq!(hsv_to_rgb(119, 500, 500), rgb(64, 127, 63));
    assert_eq!(hsv_to_rgb(200, 500, 500), rgb(63, 106, 127));
    assert_eq!(hsv_to_rgb(290, 500, 500), rgb(116, 63, 127));
    assert_eq!(hsv_to_rgb(0, 250, 1000), rgb(255, 191, 191));
    assert_eq!(hsv_to_rgb(200, 250, 1000), rgb(191, 233, 255));
    assert_eq!(hsv_to_rgb(359, 250, 1000), rgb(255, 191, 192));
    assert_eq!(hsv_to_rgb(77, 0, 1000), rgb(255, 255, 255));
    assert_eq!(hsv_to_rgb(77, 1000, 0), rgb(0, 0, 0));
    assert_eq!(hsv_to_rgb(77, 0, 0), rgb(0, 0, 0));
}

#[test]
fn hsv_stays_close_to_the_floating_point_formula() {
    for hue in 0..360u32 {
        let h = hue as f32;
        let x = 1.0 - ((h / 60.0) % 2.0 - 1.0).abs();
        let (r, g, b) = if h < 60.0 {
            (1.0, x, 0.0)
        } else if h < 120.0 {
            (x, 1.0, 0.0)
        } else if h < 180.0 {
            (0.0, 1.0, x)
        } else if h < 240.0 {
            (0.0, x, 1.0)
        } else if h < 300.0 {
            (x, 0.0, 1.0)
        } else {
            (1.0, 0.0, x)
        };
        let c = hsv_to_rgb(hue, 1000, 1000);
        assert!((c.r as i32 - (r * 255.0) as u8 as i32).abs() <= 1);
        assert!((c.g as i32 - (g * 255.0) as u8 as i32).abs() <= 1);
        assert!((c.b as i32 - (b * 255.0) as u8 as i32).abs() <= 1);
    }
}

#[test]
fn hue_follows_position_and_frame() {
    assert_eq!(hue_at(0, 0, 0), 0);
    assert_eq!(hue_at(5, 0, 0), 10);
    assert_eq!(hue_at(0, 5, 0), 20);
    assert_eq!(hue_at(0, 0, 5), 25);
    assert_eq!(hue_at(1, 2, 3), 25);
    assert_eq!(hue_at(180, 0, 0), 0);
    assert_eq!(hue_at(179, 0, 0), 358);
    assert_eq!(hue_at(0, 0, 71), 355);
    assert_eq!(hue_at(0, 0, 72), 0);
    assert_eq!(hue_at(100, 100, 100), 1100 % 360);
}

#[test]
fn rainbow_is_the_hue_at_full_strength() {
    let s = BlockSample::from_rgb(1, 2, 3);
    assert_eq!(color_for(&s, &ArtMode::Rainbow, 0, 0, 0, None), rgb(255, 0, 0));
    assert_eq!(color_for(&s, &ArtMode::Rainbow, 5, 0, 0, None), rgb(255, 42, 0));
    assert_eq!(color_for(&s, &ArtMode::Rainbow, 0, 15, 0, None), rgb(255, 255, 0));
    assert_eq!(color_for(&s, &ArtMode::Rainbow, 0, 0, 24, None), rgb(0, 255, 0));
    assert_eq!(color_for(&s, &ArtMode::Rainbow, 10, 20, 20, None), rgb(0, 170, 255));
    assert_eq!(color_for(&s, &ArtMode::Rainbow, 0, 0, 60, None), rgb(255, 0, 255));
}

#[test]
fn rainbow_repeats_every_seventy_two_frames() {
    let s = BlockSample::from_rgb(9, 8, 7);
    for x in [0usize, 1, 17, 250] {
        for y in [0usize, 3, 99] {
            for t in 0..150usize {
                let now = color_for(&s, &ArtMode::Rainbow, x, y, t, None);
                let later = color_for(&s, &ArtMode::Rainbow, x, y, t + 72, None);
                assert_eq!(now, later);
            }
        }
    }
}

#[test]
fn rainbow_ignores_the_sample() {
    let a = BlockSample::from_rgb(0, 0, 0);
    let b = BlockSample::from_rgb(255, 255, 255);
    for t in 0..72usize {
        assert_eq!(
            color_for(&a, &ArtMode::Rainbow, 3, 4, t, None),
            color_for(&b, &ArtMode::Rainbow, 3, 4, t, None)
        );
    }
}

#[test]
fn rainbow_holds_at_the_largest_counters() {
    let s = BlockSample::from_rgb(0, 0, 0);
    let hue = hue_at(usize::MAX, usize::MAX, usize::MAX);
    assert!(hue < 360);
    let expected = ((11 * (usize::MAX as u128)) % 360) as u32;
    assert_eq!(hue, expected);
    assert_eq!(
        color_for(&s, &ArtMode::Rainbow, usize::MAX, usize::MAX, usize::MAX, None),
        hsv_to_rgb(expected, 1000, 1000)
    );
    let wrapped = usize::MAX.wrapping_add(1);
    assert_eq!(color_for(&s, &ArtMode::Rainbow, 0, 0, wrapped, None), rgb(255, 0, 0));
}

#[test]
fn glitch_without_noise_shifts_red_and_blue() {
    let s = BlockSample::from_rgb(100, 150, 200);
    assert_eq!(color_for(&s, &ArtMode::Glitch, 0, 0, 0, None), rgb(110, 150, 210));
    assert_eq!(color_for(&s, &ArtMode::Glitch, 41, 7, 1234, None), rgb(110, 150, 210));
}

#[test]
fn glitch_shift_wraps_around() {
    let s = BlockSample::from_rgb(250, 3, 251);
    assert_eq!(color_for(&s, &ArtMode::Glitch, 0, 0, 0, None), rgb(4, 3, 5));
    let edge = BlockSample::from_rgb(245, 0, 246);
    assert_eq!(color_for(&edge, &ArtMode::Glitch, 0, 0, 0, None), rgb(255, 0, 0));
    let top = BlockSample::from_rgb(255, 255, 255);
    assert_eq!(color_for(&top, &ArtMode::Glitch, 0, 0, 0, None), rgb(9, 255, 9));
}

#[test]
fn glitch_with_noise_is_the_noise() {
    let s = BlockSample::from_rgb(100, 150, 200);
    let noise = rgb(1, 2, 3);
    assert_eq!(color_for(&s, &ArtMode::Glitch, 0, 0, 0, Some(noise)), noise);
}

#[test]
fn noise_is_ignored_outside_glitch_mode() {
    let s = BlockSample::from_rgb(100, 150, 200);
    let noise = Some(rgb(1, 2, 3));
    for mode in [
        ArtMode::Standard,
        ArtMode::Grayscale,
        ArtMode::Matrix,
        ArtMode::Thermal,
        ArtMode::Amber,
        ArtMode::Neon,
        ArtMode::Rainbow,
        ArtMode::Cga,
    ] {
        assert_eq!(color_for(&s, &mode, 4, 5, 6, noise), color_for(&s, &mode, 4, 5, 6, None));
    }
}

#[test]
fn get_color_leaves_the_generator_alone_outside_glitch_mode() {
    let s = BlockSample::from_rgb(100, 150, 200);
    let mut rng = StdRng::seed_from_u64(11);
    let untouched = StdRng::seed_from_u64(11);
    for mode in [
        ArtMode::Standard,
        ArtMode::Grayscale,
        ArtMode::Matrix,
        ArtMode::Thermal,
        ArtMode::Amber,
        ArtMode::Neon,
        ArtMode::Rainbow,
        ArtMode::Cga,
    ] {
        assert_eq!(get_color(&s, &mode, 4, 5, 6, &mut rng), color_for(&s, &mode, 4, 5, 6, None));
    }
    assert_eq!(rng, untouched);
}

#[test]
fn get_color_in_glitch_mode_mostly_shifts() {
    let s = BlockSample::from_rgb(100, 150, 200);
    let shifted = rgb(110, 150, 210);
    let mut rng = StdRng::seed_from_u64(2024);
    let mut struck = 0;
    for _ in 0..20_000 {
        if get_color(&s, &ArtMode::Glitch, 0, 0, 0, &mut rng) != shifted {
            struck += 1;
        }
    }
    // one in twenty on average
    assert!(struck > 700 && struck < 1300);
}

#[test]
fn get_color_is_reproducible_from_a_seed() {
    let s = BlockSample::from_rgb(100, 150, 200);
    let mut first = StdRng::seed_from_u64(5);
    let mut second = StdRng::seed_from_u64(5);
    for t in 0..2000usize {
        assert_eq!(
            get_color(&s, &ArtMode::Glitch, 1, 2, t, &mut first),
            get_color(&s, &ArtMode::Glitch, 1, 2, t, &mut second)
        );
    }
}

#[test]
fn modes_stay_close_to_the_floating_point_formulas() {
    for v in 0..=255u8 {
        let s = grey(v);
        let l = s.lum_milli as f32 / 1000.0;
        let near = |c: u8, f: f32| (c as i32 - f as u8 as i32).abs() <= 1;
        let g = plain(&s, ArtMode::Grayscale);
        assert!(near(g.r, l) && near(g.g, l) && near(g.b, l));
        let a = plain(&s, ArtMode::Amber);
        assert!(near(a.r, l) && near(a.g, l * 0.69) && a.b == 0);
        let t = plain(&s, ArtMode::Thermal);
        let (tr, tg, tb) = if l < 64.0 {
            (0.0, l * 4.0, 255.0)
        } else if l < 128.0 {
            (0.0, 255.0, 255.0 - (l - 64.0) * 4.0)
        } else if l < 192.0 {
            ((l - 128.0) * 4.0, 255.0, 0.0)
        } else {
            (255.0, 255.0 - (l - 192.0) * 4.0, 0.0)
        };
        assert!(near(t.r, tr) && near(t.g, tg) && near(t.b, tb));
        let n = plain(&s, ArtMode::Neon);
        let (nr, ng, nb) = if l < 85.0 {
            (20.0 * (l / 85.0), 0.0, 40.0 + 215.0 * (l / 85.0))
        } else if l < 170.0 {
            (255.0, 0.0, 255.0 - 127.0 * ((l - 85.0) / 85.0))
        } else {
            (255.0 * (1.0 - (l - 170.0) / 85.0), 255.0 * ((l - 170.0) / 85.0), 255.0)
        };
        assert!(near(n.r, nr) && near(n.g, ng) && near(n.b, nb));
    }
}
