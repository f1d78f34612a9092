use led_sign_controller::animation::AnimationRenderer;
use led_sign_controller::border::BorderRenderer;
use led_sign_controller::canvas::Canvas;
use led_sign_controller::clock::{format_time_string, TimeOfDay};
use led_sign_controller::color::{sample_palette, scale_color, RenderContext};
use led_sign_controller::fixed::{loop_progress, pseudo_random, tile_seed, triangle_wave, ONE};
use led_sign_controller::image::{DecodedImage, ImageRenderer};
use led_sign_controller::noise::{fractal_noise, value_noise};
use led_sign_controller::models::{
    AnimationContent, BorderEffect, ClockFormat, ContentData, ContentDetails, ContentType,
    ImageContent, ImageTransform, PlayListItem,
};
use led_sign_controller::text::get_smooth_strikethrough_color;
use led_sign_controller::waves::{Waveforms, TABLE_LEN};

fn waves() -> Waveforms {
    let mut wave = Vec::new();
    let mut twinkle = Vec::new();
    let mut arctan = Vec::new();
    for i in 0..TABLE_LEN {
        let t = i as f64 / TABLE_LEN as f64;
        let w = 0.5 + 0.5 * (std::f64::consts::TAU * t).sin();
        wave.push((w * ONE as f64) as u32);
        twinkle.push(((0.1 + 0.9 * w.powf(2.2)) * ONE as f64) as u32);
        arctan.push((t.atan() / std::f64::consts::TAU * ONE as f64) as u32);
    }
    Waveforms::from_tables(wave, twinkle, arctan).expect("tables in range")
}

fn animation_item(content: AnimationContent) -> PlayListItem {
    PlayListItem {
        id: "anim".to_string(),
        duration: Some(10),
        repeat_count: None,
        border_effect: None,
        content: ContentData {
            content_type: ContentType::Animation,
            data: ContentDetails::Animation(content),
        },
    }
}

#[test]
fn apply_brightness_full_and_zero() {
    let full = RenderContext::new(8, 8, 100);
    let off = RenderContext::new(8, 8, 0);
    assert_eq!(full.apply_brightness([12, 200, 255]), [12, 200, 255]);
    assert_eq!(off.apply_brightness([12, 200, 255]), [0, 0, 0]);
}

#[test]
fn apply_brightness_truncates() {
    assert_eq!(RenderContext::new(8, 8, 50).apply_brightness([200, 101, 51]), [100, 50, 25]);
    assert_eq!(RenderContext::new(8, 8, 33).apply_brightness([200, 100, 50]), [66, 33, 16]);
}

#[test]
fn apply_brightness_is_monotonic() {
    let color = [255, 128, 7];
    let mut last = [0u8; 3];
    for b in 0..=100u8 {
        let c = RenderContext::new(1, 1, b).apply_brightness(color);
        for k in 0..3 {
            assert!(c[k] >= last[k]);
        }
        last = c;
    }
}

#[test]
fn centered_text_position() {
    assert_eq!(RenderContext::new(64, 32, 50).calculate_centered_text_position(20), 21);
}

#[test]
fn single_color_palette_is_constant() {
    let colors = vec![[10, 20, 30]];
    for p in [0, 1, ONE / 2, ONE - 1, ONE, u32::MAX] {
        assert_eq!(sample_palette(&colors, p), [10, 20, 30]);
    }
    assert_eq!(sample_palette(&vec![], 5), [0, 0, 0]);
}

#[test]
fn palette_wraps_continuously() {
    let colors = vec![[0, 0, 0], [255, 255, 255]];
    assert_eq!(sample_palette(&colors, 0), [0, 0, 0]);
    let end = sample_palette(&colors, ONE - 1);
    for k in 0..3 {
        assert!(end[k] <= 1);
    }
}

#[test]
fn palette_interpolates_with_rounding() {
    let colors = vec![[0, 0, 0], [255, 100, 0]];
    // Position 1/4 of two colours: half way from the first to the second.
    assert_eq!(sample_palette(&colors, ONE / 4), [128, 50, 0]);
}

#[test]
fn triangle_wave_shape() {
    assert_eq!(triangle_wave(0), 0);
    assert_eq!(triangle_wave(ONE / 2), ONE);
    assert_eq!(triangle_wave(ONE / 4), ONE / 2);
    assert_eq!(triangle_wave(ONE), 0);
    assert!(triangle_wave(ONE - 1) <= 2);
}

#[test]
fn loop_progress_is_fractional() {
    assert_eq!(loop_progress(500, 2000), ONE / 4);
    assert_eq!(loop_progress(2500, 2000), ONE / 4);
    assert_eq!(loop_progress(123, 0), 0);
}

#[test]
fn scale_color_truncates_and_clamps() {
    assert_eq!(scale_color([200, 100, 3], ONE / 2), [100, 50, 1]);
    assert_eq!(scale_color([200, 100, 3], 2 * ONE), [200, 100, 3]);
}

#[test]
fn pseudo_random_is_xorshift() {
    for seed in [0u32, 1, 42, 0xdead_beef, u32::MAX] {
        let mut x = seed;
        x ^= x << 13;
        x ^= x >> 17;
        x ^= x << 5;
        assert_eq!(pseudo_random(seed), x >> 16);
    }
}

#[test]
fn tile_seed_mixes_coordinates() {
    assert_eq!(tile_seed(0, 0), 0);
    assert_eq!(tile_seed(1, 0), 73_856_093);
    assert_eq!(tile_seed(0, 1), 19_349_663);
    assert_eq!(tile_seed(1, 1), 73_856_093 ^ 19_349_663);
    assert_eq!(tile_seed(100, 3), 100u32.wrapping_mul(73_856_093) ^ 3u32.wrapping_mul(19_349_663));
}

#[test]
fn canvas_set_and_fill() {
    let mut c = Canvas::new(4, 3);
    assert_eq!(c.size(), (4, 3));
    c.set_pixel(1, 2, [1, 2, 3]);
    c.set_pixel(-1, 0, [9, 9, 9]);
    c.set_pixel(4, 0, [9, 9, 9]);
    assert_eq!(c.pixel(1, 2), [1, 2, 3]);
    assert_eq!(c.pixel(0, 0), [0, 0, 0]);
    c.fill([5, 5, 5]);
    assert_eq!(c.pixel(1, 2), [5, 5, 5]);
}

fn strobe_level_at(ms: u64) -> u8 {
    let item = animation_item(AnimationContent::Strobe {
        colors: vec![[200, 200, 200]],
        flash_ms: 100,
        fade_ms: 100,
        randomize: false,
        randomization_factor: 0,
    });
    let mut r = AnimationRenderer::new(&item, RenderContext::new(4, 4, 100));
    r.update(ms);
    let mut c = Canvas::new(4, 4);
    r.render(&mut c, &waves());
    c.pixel(2, 2)[0]
}

#[test]
fn strobe_flash_then_linear_fade() {
    assert_eq!(strobe_level_at(0), 200);
    assert_eq!(strobe_level_at(99), 200);
    assert_eq!(strobe_level_at(150), 100);
    assert_eq!(strobe_level_at(175), 50);
    assert_eq!(strobe_level_at(199), 1);
    assert_eq!(strobe_level_at(200), 200);
    assert_eq!(strobe_level_at(350), 100);
}

#[test]
fn randomized_strobe_still_renders() {
    let item = animation_item(AnimationContent::Strobe {
        colors: vec![[200, 0, 0], [0, 200, 0]],
        flash_ms: 100,
        fade_ms: 100,
        randomize: true,
        randomization_factor: ONE / 2,
    });
    let mut r = AnimationRenderer::new(&item, RenderContext::new(2, 2, 100));
    r.update(10);
    let mut c = Canvas::new(2, 2);
    r.render(&mut c, &waves());
    assert_eq!(c.pixel(0, 0), [200, 0, 0]);
}

fn sparkle_frame(density: u32) -> Canvas {
    let item = animation_item(AnimationContent::Sparkle {
        colors: vec![[255, 255, 255]],
        density,
        twinkle_ms: 600,
    });
    let r = AnimationRenderer::new(&item, RenderContext::new(16, 8, 100));
    let mut c = Canvas::new(16, 8);
    r.render(&mut c, &waves());
    c
}

#[test]
fn sparkle_zero_density_is_black() {
    let c = sparkle_frame(0);
    for y in 0..8 {
        for x in 0..16 {
            assert_eq!(c.pixel(x, y), [0, 0, 0]);
        }
    }
}

#[test]
fn sparkle_full_density_lights_every_pixel() {
    let c = sparkle_frame(ONE);
    for y in 0..8 {
        for x in 0..16 {
            assert!(c.pixel(x, y)[0] >= 25);
        }
    }
}

#[test]
fn pulse_fills_with_enveloped_color() {
    let item = animation_item(AnimationContent::Pulse { colors: vec![[200, 100, 0]], cycle_ms: 2000 });
    let mut r = AnimationRenderer::new(&item, RenderContext::new(3, 3, 100));
    r.update(500);
    let mut c = Canvas::new(3, 3);
    r.render(&mut c, &waves());
    // A quarter through the cycle the triangle envelope is at one half.
    assert_eq!(c.pixel(1, 1), [100, 50, 0]);
    assert!(!r.is_complete());
    r.update(9500);
    assert!(r.is_complete());
}

#[test]
fn mosaic_border_ring_uses_border_color() {
    let item = animation_item(AnimationContent::MosaicTwinkle {
        colors: vec![[255, 255, 255]],
        tile_size: 4,
        flow_speed: ONE,
        border_size: 1,
        border_color: [50, 0, 0],
    });
    let r = AnimationRenderer::new(&item, RenderContext::new(8, 8, 100));
    let mut c = Canvas::new(8, 8);
    r.render(&mut c, &waves());
    // The inner edges between tiles keep the border colour.
    assert_eq!(c.pixel(4, 5), [50, 0, 0]);
    assert_ne!(c.pixel(0, 0), [50, 0, 0]);
}

#[test]
fn palette_wave_paints_every_pixel() {
    let item = animation_item(AnimationContent::PaletteWave {
        colors: vec![[255, 0, 0]],
        cycle_ms: 2000,
        wave_count: 3,
    });
    let r = AnimationRenderer::new(&item, RenderContext::new(4, 2, 100));
    let mut c = Canvas::new(4, 2);
    r.render(&mut c, &waves());
    // At the origin at time 0 the brightness term is 0.6.
    assert_eq!(c.pixel(0, 0), [152, 0, 0]);
}

#[test]
fn strikethrough_colors() {
    assert_eq!(get_smooth_strikethrough_color(200, 200, 200), [255, 0, 0]);
    assert_eq!(get_smooth_strikethrough_color(200, 0, 0), [255, 255, 255]);
    assert_eq!(get_smooth_strikethrough_color(255, 200, 200), [255, 0, 0]);
    assert_eq!(get_smooth_strikethrough_color(250, 100, 100), [255, 99, 99]);
    assert_eq!(get_smooth_strikethrough_color(0, 0, 255), [255, 255, 255]);
}

#[test]
fn clock_faces() {
    let t = TimeOfDay { hour: 9, minute: 5, second: 7 };
    assert_eq!(format_time_string(t, ClockFormat::TwentyFourHour, false), "09:05");
    assert_eq!(format_time_string(t, ClockFormat::TwentyFourHour, true), "09:05:07");
    assert_eq!(format_time_string(t, ClockFormat::TwelveHour, false), "9:05 AM");
    let midnight = TimeOfDay { hour: 0, minute: 30, second: 0 };
    assert_eq!(format_time_string(midnight, ClockFormat::TwelveHour, true), "12:30:00 AM");
    let afternoon = TimeOfDay { hour: 13, minute: 45, second: 0 };
    assert_eq!(format_time_string(afternoon, ClockFormat::TwelveHour, false), "1:45 PM");
    assert_eq!(format_time_string(afternoon, ClockFormat::TwentyFourHour, false), "13:45");
}

#[test]
fn border_pulse_paints_ring_only() {
    let item = PlayListItem {
        id: "b".to_string(),
        duration: Some(5),
        repeat_count: None,
        border_effect: Some(BorderEffect::Pulse { colors: vec![[0, 200, 0]] }),
        content: ContentData {
            content_type: ContentType::Clock,
            data: ContentDetails::Clock(led_sign_controller::models::ClockContent {
                format: ClockFormat::TwentyFourHour,
                show_seconds: false,
                color: [255, 255, 255],
            }),
        },
    };
    let mut b = BorderRenderer::new(&item, RenderContext::new(8, 6, 100));
    // One second into the effect is 0.7 s of pulse: the envelope is at 0.7, truncated.
    b.update(1000);
    let mut c = Canvas::new(8, 6);
    b.render(&mut c);
    assert_eq!(c.pixel(0, 0), [0, 139, 0]);
    assert_eq!(c.pixel(7, 5), [0, 139, 0]);
    assert_eq!(c.pixel(1, 3), [0, 139, 0]);
    assert_eq!(c.pixel(3, 3), [0, 0, 0]);
    assert!(!b.is_complete());
}

#[test]
fn border_rainbow_starts_red_on_the_left() {
    let item = PlayListItem {
        id: "r".to_string(),
        duration: Some(5),
        repeat_count: None,
        border_effect: Some(BorderEffect::Rainbow),
        content: ContentData {
            content_type: ContentType::Clock,
            data: ContentDetails::Clock(led_sign_controller::models::ClockContent {
                format: ClockFormat::TwentyFourHour,
                show_seconds: false,
                color: [255, 255, 255],
            }),
        },
    };
    let b = BorderRenderer::new(&item, RenderContext::new(6, 6, 100));
    let mut c = Canvas::new(6, 6);
    b.render(&mut c);
    assert_eq!(c.pixel(0, 0), [255, 0, 0]);
    assert_eq!(c.pixel(2, 2), [0, 0, 0]);
}

#[test]
fn border_sparkle_stays_on_the_ring() {
    let item = PlayListItem {
        id: "s".to_string(),
        duration: Some(5),
        repeat_count: None,
        border_effect: Some(BorderEffect::Sparkle { colors: vec![[9, 9, 9]] }),
        content: ContentData {
            content_type: ContentType::Clock,
            data: ContentDetails::Clock(led_sign_controller::models::ClockContent {
                format: ClockFormat::TwentyFourHour,
                show_seconds: false,
                color: [255, 255, 255],
            }),
        },
    };
    let b = BorderRenderer::new(&item, RenderContext::new(10, 10, 100));
    let mut c = Canvas::new(10, 10);
    b.render(&mut c);
    let mut lit = 0;
    for y in 0..10 {
        for x in 0..10 {
            if c.pixel(x, y) != [0, 0, 0] {
                lit += 1;
                assert!(x < 2 || x >= 8 || y < 2 || y >= 8);
            }
        }
    }
    assert!(lit > 0);
}

#[test]
fn image_draws_scaled_and_clipped() {
    let pixels = vec![10, 0, 0, 20, 0, 0, 30, 0, 0, 40, 0, 0];
    let img = DecodedImage::new(2, 2, pixels).expect("2x2 image");
    assert!(DecodedImage::new(2, 2, vec![1, 2, 3]).is_none());
    let item = PlayListItem {
        id: "i".to_string(),
        duration: Some(1),
        repeat_count: None,
        border_effect: None,
        content: ContentData {
            content_type: ContentType::Image,
            data: ContentDetails::Image(ImageContent {
                image_id: "pic".to_string(),
                natural_width: 2,
                natural_height: 2,
                transform: ImageTransform { x: 1, y: 0, scale: 2 * ONE },
                animation: None,
            }),
        },
    };
    let mut r = ImageRenderer::new(&item, RenderContext::new(4, 4, 100), Some(img));
    let mut c = Canvas::new(4, 4);
    r.render(&mut c);
    assert_eq!(c.pixel(0, 0), [0, 0, 0]);
    assert_eq!(c.pixel(1, 0), [10, 0, 0]);
    assert_eq!(c.pixel(2, 1), [10, 0, 0]);
    assert_eq!(c.pixel(3, 0), [20, 0, 0]);
    assert_eq!(c.pixel(1, 2), [30, 0, 0]);
    assert_eq!(c.pixel(3, 3), [40, 0, 0]);
    assert!(!r.is_complete());
    r.update(1000);
    assert!(r.is_complete());
}

#[test]
fn missing_image_completes_at_once() {
    let item = PlayListItem {
        id: "i".to_string(),
        duration: Some(100),
        repeat_count: None,
        border_effect: None,
        content: ContentData {
            content_type: ContentType::Image,
            data: ContentDetails::Image(ImageContent {
                image_id: "gone".to_string(),
                natural_width: 2,
                natural_height: 2,
                transform: ImageTransform { x: 0, y: 0, scale: ONE },
                animation: None,
            }),
        },
    };
    let mut r = ImageRenderer::new(&item, RenderContext::new(4, 4, 100), None);
    r.update(1);
    assert!(r.is_complete());
    let mut c = Canvas::new(4, 4);
    c.fill([7, 7, 7]);
    r.render(&mut c);
    assert_eq!(c.pixel(0, 0), [7, 7, 7]);
}

fn lattice_value(x: i32, y: i32, salt: u32) -> u32 {
    let mut n = (x as u32).wrapping_mul(374_761_393).wrapping_add((y as u32) ^ 668_265_263);
    n ^= n >> 13;
    n ^= n << 17;
    n ^= n >> 5;
    n ^= salt;
    n >> 16
}

#[test]
fn value_noise_hits_lattice_values() {
    let one = ONE as i128;
    assert_eq!(value_noise(0, 0, 7), lattice_value(0, 0, 7));
    assert_eq!(value_noise(3 * one, -2 * one, 9), lattice_value(3, -2, 9));
    assert_eq!(fractal_noise(3 * one, -2 * one, 1, ONE / 2, 2 * ONE, 9), lattice_value(3, -2, 9));
    let mid = value_noise(one / 2, 0, 7);
    let (a, b) = (lattice_value(0, 0, 7), lattice_value(1, 0, 7));
    assert!(mid >= a.min(b) && mid <= a.max(b));
    assert_eq!(fractal_noise(5, 5, 0, ONE / 2, 2 * ONE, 1), 0);
}

#[test]
fn plasma_lights_every_pixel_deterministically() {
    let item = animation_item(AnimationContent::Plasma {
        colors: vec![[255, 255, 255]],
        flow_speed: 121242,
        noise_scale: 114688,
    });
    let mut r = AnimationRenderer::new(&item, RenderContext::new(16, 8, 100));
    r.update(1234);
    let w = waves();
    let mut a = Canvas::new(16, 8);
    let mut b = Canvas::new(16, 8);
    r.render(&mut a, &w);
    r.render(&mut b, &w);
    for y in 0..8 {
        for x in 0..16 {
            let p = a.pixel(x, y);
            assert_eq!(p, b.pixel(x, y));
            // Brightness never falls below 0.3.
            assert!(p[0] >= 76);
        }
    }
}

#[test]
fn plasma_with_zero_flow_draws_nothing() {
    let item = animation_item(AnimationContent::Plasma {
        colors: vec![[255, 255, 255]],
        flow_speed: 0,
        noise_scale: 114688,
    });
    let r = AnimationRenderer::new(&item, RenderContext::new(4, 4, 100));
    let mut c = Canvas::new(4, 4);
    c.fill([1, 2, 3]);
    r.render(&mut c, &waves());
    assert_eq!(c.pixel(2, 2), [1, 2, 3]);
}

#[test]
fn border_gradient_stays_on_the_ring() {
    let item = PlayListItem {
        id: "g".to_string(),
        duration: Some(5),
        repeat_count: None,
        border_effect: Some(BorderEffect::Gradient { colors: vec![[200, 0, 0], [0, 0, 200]] }),
        content: ContentData {
            content_type: ContentType::Clock,
            data: ContentDetails::Clock(led_sign_controller::models::ClockContent {
                format: ClockFormat::TwentyFourHour,
                show_seconds: false,
                color: [255, 255, 255],
            }),
        },
    };
    let b = BorderRenderer::new(&item, RenderContext::new(10, 6, 100));
    let mut c = Canvas::new(10, 6);
    b.render(&mut c);
    // The walk starts at the top-left corner in the first colour.
    assert_eq!(c.pixel(0, 0), [200, 0, 0]);
    for y in 0..6 {
        for x in 0..10 {
            let on_ring = x < 2 || x >= 8 || y < 2 || y >= 4;
            assert_eq!(c.pixel(x, y) != [0, 0, 0], on_ring);
        }
    }
}

#[test]
fn undecodable_image_is_complete_before_any_update() {
    let item = PlayListItem {
        id: "i".to_string(),
        duration: Some(100),
        repeat_count: None,
        border_effect: None,
        content: ContentData {
            content_type: ContentType::Image,
            data: ContentDetails::Image(ImageContent {
                image_id: "gone".to_string(),
                natural_width: 2,
                natural_height: 2,
                transform: ImageTransform { x: 0, y: 0, scale: ONE },
                animation: None,
            }),
        },
    };
    let r = ImageRenderer::new(&item, RenderContext::new(4, 4, 100), None);
    assert!(r.is_complete());
}

#[test]
fn image_content_update_keeps_the_clock() {
    let item = |d: u64| PlayListItem {
        id: "i".to_string(),
        duration: Some(d),
        repeat_count: None,
        border_effect: None,
        content: ContentData {
            content_type: ContentType::Image,
            data: ContentDetails::Image(ImageContent {
                image_id: "pic".to_string(),
                natural_width: 1,
                natural_height: 1,
                transform: ImageTransform { x: 0, y: 0, scale: ONE },
                animation: None,
            }),
        },
    };
    let img = DecodedImage::new(1, 1, vec![1, 2, 3]).expect("1x1 image");
    let mut r = ImageRenderer::new(&item(3), RenderContext::new(4, 4, 100), Some(img));
    r.update(2000);
    r.update_content(&item(3), None);
    r.update(1000);
    assert!(r.is_complete());
}
