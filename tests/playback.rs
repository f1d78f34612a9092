use led_sign_controller::canvas::Canvas;
use led_sign_controller::clock::ClockRenderer;
use led_sign_controller::color::RenderContext;
use led_sign_controller::fixed::ONE;
use led_sign_controller::ids::generate_uuid_string;
use led_sign_controller::image::{DecodedImage, ImageRenderer};
use led_sign_controller::manager::{playlist_consistent, DisplayManager};
use led_sign_controller::models::{
    AnimationContent, BorderEffect, ClockContent, ClockFormat, ContentData, ContentDetails,
    ContentType, ImageAnimation, ImageContent, ImageKeyframe, ImageTransform, PlayListItem,
    Playlist, TextContent, TextFormatting, TextSegment,
};
use led_sign_controller::text::TextRenderer;
use led_sign_controller::waves::{Waveforms, TABLE_LEN};

fn waves() -> Waveforms {
    let mut wave = Vec::new();
    let mut twinkle = Vec::new();
    let mut arctan = Vec::new();
    for i in 0..TABLE_LEN {
        let t = i as f64 / TABLE_LEN as f64;
        let w = 0.5 + 0.5 * (std::f64::consts::TAU * t).sin();
        wave.push((w * ONE as f64) as u32);
        twinkle.push(((0.1 + 0.9 * w.powf(2.2)) * ONE as f64) as u32);
        arctan.push((t.atan() / std::f64::consts::TAU * ONE as f64) as u32);
    }
    Waveforms::from_tables(wave, twinkle, arctan).expect("tables in range")
}

fn text(id: &str, body: &str, scroll: bool, duration: Option<u64>, repeat: Option<u32>) -> PlayListItem {
    PlayListItem {
        id: id.to_string(),
        duration,
        repeat_count: repeat,
        border_effect: None,
        content: ContentData {
            content_type: ContentType::Text,
            data: ContentDetails::Text(TextContent {
                text: body.to_string(),
                scroll,
                color: [255, 255, 255],
                speed: 10,
                text_segments: None,
            }),
        },
    }
}

fn manager() -> DisplayManager {
    DisplayManager::new(64, 32, 100, waves(), &"10.0.0.2".to_string())
}

fn playlist(n: usize, repeat: bool, active: usize) -> Playlist {
    let items = (0..n).map(|i| text(&format!("t{}", i), "hi", false, Some(1), None)).collect();
    Playlist { items, active_index: active, repeat }
}

#[test]
fn empty_playlist_never_transitions() {
    let mut m = manager();
    for _ in 0..10 {
        m.update_renderer(10_000);
        assert!(!m.check_transition());
    }
    let current = m.get_current_content();
    assert_eq!(current.repeat_count, Some(0));
    match &current.content.data {
        ContentDetails::Text(t) => {
            assert!(t.scroll);
            assert!(t.text.contains("http://10.0.0.2:3000"));
        }
        _ => panic!("the idle item is text"),
    }
    match &current.border_effect {
        Some(BorderEffect::Pulse { colors }) => assert_eq!(colors, &vec![[0, 255, 0], [0, 200, 0]]),
        _ => panic!("the idle item pulses"),
    }
    m.update_display();
    assert_eq!(m.canvas().pixel(10, 10), [0, 0, 0]);
    let runs = m.canvas().text_runs();
    assert_eq!(runs.len(), 1);
    assert!(runs[0].text.contains("http://10.0.0.2:3000"));
    assert_eq!(runs[0].color, [0, 255, 0]);
    // The pulsing border is lit part-way through its cycle.
    m.update_renderer(500);
    m.update_display();
    assert_ne!(m.canvas().pixel(0, 0), [0, 0, 0]);
    assert_eq!(m.canvas().pixel(0, 0)[0], 0);
}

#[test]
fn non_repeating_playlist_stays_on_last_item() {
    let mut m = manager();
    m.set_playlist(playlist(3, false, 2));
    assert_eq!(m.playlist().active_index, 2);
    m.update_renderer(1000);
    assert!(m.check_transition());
    assert_eq!(m.playlist().active_index, 2);
}

#[test]
fn repeating_playlist_wraps_to_first_item() {
    let mut m = manager();
    m.set_playlist(playlist(3, true, 2));
    m.update_renderer(999);
    assert!(!m.check_transition());
    m.update_renderer(1);
    assert!(m.check_transition());
    assert_eq!(m.playlist().active_index, 0);
}

#[test]
fn preview_times_out_without_pings() {
    let mut m = manager();
    m.enter_preview_mode(text("p", "preview", false, Some(5), None), "s1".to_string());
    assert!(m.is_in_preview_mode());
    assert_eq!(m.get_current_content().id, "p");
    m.update_renderer(5999);
    assert_eq!(m.check_preview_timeout(5), None);
    m.update_renderer(1);
    assert_eq!(m.check_preview_timeout(5), Some("s1".to_string()));
    assert!(!m.is_in_preview_mode());
}

#[test]
fn pings_keep_preview_alive() {
    let mut m = manager();
    m.enter_preview_mode(text("p", "preview", false, Some(5), None), "s1".to_string());
    m.update_renderer(4000);
    assert!(m.update_preview_ping());
    m.update_renderer(4000);
    assert_eq!(m.check_preview_timeout(5), None);
    assert!(m.is_preview_session_owner(&"s1".to_string()));
    assert!(!m.is_preview_session_owner(&"s2".to_string()));
    m.exit_preview_mode();
    assert!(!m.is_in_preview_mode());
    assert!(!m.update_preview_ping());
    assert!(!m.is_preview_session_owner(&"s1".to_string()));
}

#[test]
fn preview_suspends_transitions() {
    let mut m = manager();
    m.set_playlist(playlist(2, true, 0));
    m.enter_preview_mode(text("p", "preview", false, Some(5), None), "s1".to_string());
    m.update_renderer(10_000);
    assert!(!m.check_transition());
    assert_eq!(m.playlist().active_index, 0);
    m.update_preview_content(text("q", "other", false, Some(5), None));
    assert_eq!(m.get_current_content().id, "q");
}

#[test]
fn three_items_play_in_order_then_stop() {
    let mut m = manager();
    m.set_playlist(playlist(3, false, 0));
    let mut visited = vec![m.playlist().active_index];
    for _ in 0..31 {
        m.check_preview_timeout(5);
        if m.check_transition() {
            let i = m.playlist().active_index;
            if *visited.last().unwrap() != i {
                visited.push(i);
            }
        }
        m.update_renderer(100);
        m.update_display();
    }
    assert_eq!(visited, vec![0, 1, 2]);
    assert_eq!(m.playlist().active_index, 2);
}

#[test]
fn brightness_is_clamped() {
    let mut m = manager();
    m.set_brightness(150);
    assert_eq!(m.get_brightness(), 100);
    m.set_brightness(40);
    assert_eq!(m.get_brightness(), 40);
}

#[test]
fn frame_draws_content_then_border() {
    let mut m = manager();
    let mut item = text("t", "hi", false, Some(5), None);
    item.border_effect = Some(BorderEffect::Pulse { colors: vec![[0, 200, 0]] });
    m.set_playlist(Playlist { items: vec![item], active_index: 0, repeat: true });
    m.update_renderer(1000);
    m.update_display();
    assert_eq!(m.canvas().text_runs().len(), 1);
    assert_eq!(m.canvas().pixel(0, 0), [0, 139, 0]);
    assert_eq!(m.canvas().pixel(10, 10), [0, 0, 0]);
    m.shutdown();
}

#[test]
fn inconsistent_items_are_detected() {
    let mut bad = text("x", "x", false, Some(1), None);
    bad.content.content_type = ContentType::Image;
    assert!(!playlist_consistent(&Playlist { items: vec![bad], active_index: 0, repeat: true }));
    assert!(playlist_consistent(&playlist(2, true, 0)));
}

#[test]
fn scrolling_text_counts_passes() {
    let item = text("s", "ab", true, None, Some(1));
    let mut r = TextRenderer::new(&item, RenderContext::new(20, 32, 100));
    let mut positions = Vec::new();
    for _ in 0..5 {
        assert!(!r.is_complete());
        r.update(1000);
        let mut c = Canvas::new(20, 32);
        r.render(&mut c);
        positions.push(c.text_runs()[0].x);
    }
    assert_eq!(positions, vec![10, 0, -10, -20, 20]);
    assert!(r.is_complete());
}

#[test]
fn static_text_is_centered() {
    let item = text("c", "abc", false, Some(2), None);
    let mut r = TextRenderer::new(&item, RenderContext::new(64, 32, 50));
    let mut c = Canvas::new(64, 32);
    r.render(&mut c);
    let run = &c.text_runs()[0];
    assert_eq!((run.x, run.y, run.color), (16, 21, [127, 127, 127]));
    assert_eq!(run.text, "abc");
    r.update(1999);
    assert!(!r.is_complete());
    r.update(1);
    assert!(r.is_complete());
}

#[test]
fn segmented_text_draws_runs_and_decorations() {
    let mut item = text("g", "hello", false, Some(2), None);
    if let ContentDetails::Text(t) = &mut item.content.data {
        t.text_segments = Some(vec![
            TextSegment {
                start: 0,
                end: 2,
                color: Some([255, 0, 0]),
                formatting: Some(TextFormatting { bold: true, underline: true, strikethrough: false }),
            },
            TextSegment { start: 2, end: 9, color: None, formatting: None },
        ]);
    }
    let r = TextRenderer::new(&item, RenderContext::new(64, 32, 100));
    let mut c = Canvas::new(64, 32);
    r.render(&mut c);
    let runs: Vec<(String, i64)> = c.text_runs().iter().map(|t| (t.text.clone(), t.x)).collect();
    // "hello" is 52 pixels wide, so it starts at (64 - 52) / 2 = 6.
    assert_eq!(runs, vec![("he".to_string(), 7), ("he".to_string(), 6), ("llo".to_string(), 26)]);
    assert_eq!(c.pixel(6, 24), [255, 0, 0]);
    assert_eq!(c.pixel(25, 24), [255, 0, 0]);
    assert_eq!(c.pixel(26, 24), [0, 0, 0]);
}

#[test]
fn clock_renders_one_run_of_the_time() {
    let item = PlayListItem {
        id: "k".to_string(),
        duration: Some(3),
        repeat_count: None,
        border_effect: None,
        content: ContentData {
            content_type: ContentType::Clock,
            data: ContentDetails::Clock(ClockContent {
                format: ClockFormat::TwentyFourHour,
                show_seconds: true,
                color: [255, 255, 255],
            }),
        },
    };
    let r = ClockRenderer::new(&item, RenderContext::new(128, 32, 100));
    let mut c = Canvas::new(128, 32);
    r.render(&mut c);
    let run = &c.text_runs()[0];
    assert_eq!(run.text.len(), 8);
    assert_eq!(run.text.chars().nth(2), Some(':'));
    assert_eq!(run.x, 24);
}

#[test]
fn generated_ids_are_uuids() {
    let a = generate_uuid_string();
    let b = generate_uuid_string();
    assert_eq!(a.len(), 36);
    assert_ne!(a, b);
    for (i, c) in a.chars().enumerate() {
        if [8, 13, 18, 23].contains(&i) {
            assert_eq!(c, '-');
        } else {
            assert!(c.is_ascii_hexdigit() && !c.is_ascii_uppercase());
        }
    }
    assert_eq!(a.chars().nth(14), Some('4'));
    assert!("89ab".contains(a.chars().nth(19).unwrap()));
}

fn image_item(id: &str, duration: Option<u64>, repeat: Option<u32>, frames: Option<usize>) -> PlayListItem {
    PlayListItem {
        id: "img".to_string(),
        duration,
        repeat_count: repeat,
        border_effect: None,
        content: ContentData {
            content_type: ContentType::Image,
            data: ContentDetails::Image(ImageContent {
                image_id: id.to_string(),
                natural_width: 4,
                natural_height: 4,
                transform: ImageTransform { x: 0, y: 0, scale: ONE },
                animation: frames.map(|n| ImageAnimation {
                    keyframes: (0..n)
                        .map(|k| ImageKeyframe { timestamp_ms: 1000 * k as u32, x: 0, y: 0, scale: ONE })
                        .collect(),
                    iterations: None,
                }),
            }),
        },
    }
}

#[test]
fn item_timing_rules() {
    assert!(text("a", "a", false, Some(1), None).validate().is_ok());
    assert!(text("a", "a", true, None, Some(0)).validate().is_ok());
    assert_eq!(
        text("a", "a", false, Some(1), Some(1)).validate(),
        Err("Both 'duration' and 'repeat_count' cannot be provided together".to_string())
    );
    assert_eq!(
        text("a", "a", false, None, None).validate(),
        Err("Either 'duration' or 'repeat_count' must be provided".to_string())
    );
    assert_eq!(
        text("a", "a", false, None, Some(1)).validate(),
        Err("When 'scroll' is false, 'duration' must be used instead of 'repeat_count'".to_string())
    );
    assert_eq!(
        text("a", "a", true, Some(1), None).validate(),
        Err("When 'scroll' is true, 'repeat_count' must be used instead of 'duration'".to_string())
    );
}

#[test]
fn image_item_rules() {
    assert!(image_item("pic", Some(3), None, None).validate().is_ok());
    assert!(image_item("pic", None, Some(2), Some(2)).validate().is_ok());
    assert_eq!(
        image_item("   ", Some(3), None, None).validate(),
        Err("Image content requires a valid 'image_id'".to_string())
    );
    assert_eq!(
        image_item("pic", None, Some(2), Some(1)).validate(),
        Err("Animated images require at least two keyframes".to_string())
    );
    assert_eq!(
        image_item("pic", Some(2), None, Some(2)).validate(),
        Err("Animated images must use 'repeat_count' instead of 'duration'".to_string())
    );
    assert_eq!(
        image_item("pic", None, Some(2), None).validate(),
        Err("Static images require 'duration' instead of 'repeat_count'".to_string())
    );
    let mut flat = image_item("pic", Some(3), None, None);
    if let ContentDetails::Image(c) = &mut flat.content.data {
        c.natural_width = 0;
    }
    assert_eq!(flat.validate(), Err("Image content requires non-zero natural dimensions".to_string()));
}

#[test]
fn animation_parameter_rules() {
    let ok = AnimationContent::Pulse { colors: vec![[1, 2, 3]], cycle_ms: 2000 };
    assert!(ok.validate().is_ok());
    assert_eq!(
        AnimationContent::Pulse { colors: vec![], cycle_ms: 2000 }.validate(),
        Err("Animation presets require at least one color".to_string())
    );
    assert_eq!(
        AnimationContent::PaletteWave { colors: vec![[1, 1, 1]], cycle_ms: 0, wave_count: 1 }.validate(),
        Err("cycle_ms must be greater than zero".to_string())
    );
    assert_eq!(
        AnimationContent::PaletteWave { colors: vec![[1, 1, 1]], cycle_ms: 5, wave_count: 0 }.validate(),
        Err("wave_count must be at least 1".to_string())
    );
    assert_eq!(
        AnimationContent::Strobe {
            colors: vec![[1, 1, 1]],
            flash_ms: 1,
            fade_ms: 1,
            randomize: true,
            randomization_factor: ONE + 1,
        }
        .validate(),
        Err("randomization_factor must be between 0.0 and 1.0".to_string())
    );
    assert_eq!(
        AnimationContent::Sparkle { colors: vec![[1, 1, 1]], density: 0, twinkle_ms: 5 }.validate(),
        Err("density must be in the range (0, 1]".to_string())
    );
    assert_eq!(
        AnimationContent::MosaicTwinkle {
            colors: vec![[1, 1, 1]],
            tile_size: 2,
            flow_speed: 1,
            border_size: 3,
            border_color: [0, 0, 0],
        }
        .validate(),
        Err("border_size must be less than or equal to tile_size".to_string())
    );
    assert_eq!(
        AnimationContent::Plasma { colors: vec![[1, 1, 1]], flow_speed: 1, noise_scale: 0 }.validate(),
        Err("noise_scale must be a positive finite value".to_string())
    );
    let mut clock = image_item("pic", Some(3), None, None);
    clock.content = ContentData {
        content_type: ContentType::Clock,
        data: ContentDetails::Clock(ClockContent {
            format: ClockFormat::TwelveHour,
            show_seconds: false,
            color: [1, 1, 1],
        }),
    };
    assert!(clock.validate().is_ok());
    clock.duration = None;
    clock.repeat_count = Some(1);
    assert_eq!(
        clock.validate(),
        Err("Clock content requires 'duration' instead of 'repeat_count'".to_string())
    );
}

#[test]
fn animated_image_counts_passes_against_repeat_count() {
    let item = image_item("pic", None, Some(2), Some(3));
    let img = DecodedImage::new(1, 1, vec![5, 6, 7]).expect("1x1 image");
    let mut r = ImageRenderer::new(&item, RenderContext::new(8, 8, 100), Some(img));
    // The keyframes end at 2000 ms, so one pass lasts two seconds.
    r.update(1999);
    assert!(!r.is_complete());
    r.update(1);
    assert!(!r.is_complete());
    r.update(2000);
    assert!(r.is_complete());
    r.reset();
    assert!(!r.is_complete());
}

#[test]
fn manager_shows_stored_images() {
    let mut m = manager();
    let img = DecodedImage::new(1, 1, vec![40, 50, 60]).expect("1x1 image");
    m.add_image("pic".to_string(), img);
    m.set_playlist(Playlist { items: vec![image_item("pic", Some(3), None, None)], active_index: 0, repeat: true });
    m.set_brightness(50);
    m.update_display();
    assert_eq!(m.canvas().pixel(0, 0), [20, 25, 30]);
    assert_eq!(m.canvas().pixel(1, 0), [0, 0, 0]);
    // An image that was never stored completes at once and moves playback on.
    m.set_playlist(Playlist {
        items: vec![image_item("missing", Some(3), None, None), text("t", "x", false, Some(1), None)],
        active_index: 0,
        repeat: true,
    });
    m.update_renderer(1);
    assert!(m.check_transition());
    assert_eq!(m.playlist().active_index, 1);
}

#[test]
fn playlist_edits_follow_the_handlers_rules() {
    let mut m = manager();
    m.add_playlist_item(text("a", "a", false, Some(1), None));
    m.add_playlist_item(text("b", "b", false, Some(1), None));
    m.add_playlist_item(text("c", "c", false, Some(1), None));
    assert_eq!(m.playlist().items.len(), 3);
    assert_eq!(m.get_current_content().id, "a");

    assert!(m.update_playlist_item(&"b".to_string(), text("zzz", "new", false, Some(2), None)));
    assert_eq!(m.playlist().items[1].id, "b");
    assert_eq!(m.playlist().items[1].duration, Some(2));
    assert!(!m.update_playlist_item(&"x".to_string(), text("x", "x", false, Some(1), None)));

    let plan = m.reorder_plan(&vec!["c".to_string(), "a".to_string(), "b".to_string()]);
    assert_eq!(plan, Some(vec![2, 0, 1]));
    assert_eq!(m.reorder_plan(&vec!["c".to_string(), "a".to_string()]), None);
    assert_eq!(m.reorder_plan(&vec!["c".to_string(), "a".to_string(), "q".to_string()]), None);

    m.set_playlist(Playlist { items: m.playlist().items.clone(), active_index: 2, repeat: true });
    assert!(m.delete_playlist_item(&"a".to_string()));
    assert_eq!(m.playlist().items.len(), 2);
    assert_eq!(m.playlist().active_index, 1);
    assert!(!m.delete_playlist_item(&"a".to_string()));
    assert!(m.delete_playlist_item(&"b".to_string()));
    assert!(m.delete_playlist_item(&"c".to_string()));
    assert_eq!(m.playlist().active_index, 0);
    assert_eq!(m.get_current_content().repeat_count, Some(0));
}
