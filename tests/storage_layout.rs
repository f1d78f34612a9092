use led_sign_controller::config::{DisplayConfig, DriverType, MatrixOptions};
use led_sign_controller::fixed::ONE;
use led_sign_controller::models::{
    ContentData, ContentDetails, ContentType, ImageContent, ImageTransform, PlayListItem, Playlist,
    TextContent,
};
use led_sign_controller::storage::{
    create_storage, is_unused_image, referenced_image_ids, StorageManager, PLAYLIST_FILE,
};

fn config() -> DisplayConfig {
    DisplayConfig {
        rows: 32,
        cols: 64,
        chain_length: 2,
        parallel: 3,
        led_brightness: 80,
        driver_type: DriverType::RpiLedPanel,
        hardware_mapping: "regular".to_string(),
        pwm_bits: 11,
        pwm_lsb_nanoseconds: 130,
        gpio_slowdown: Some(2),
        interlaced: false,
        dither_bits: 0,
        panel_type: None,
        multiplexing: Some("Stripe".to_string()),
        pixel_mapper: None,
        row_setter: "default".to_string(),
        led_sequence: "RGB".to_string(),
        pi_chip: None,
        hardware_pulsing: true,
        show_refresh: false,
        inverse_colors: false,
        limit_refresh_rate: 120,
        limit_max_brightness: 100,
        port: 3000,
        interface: "0.0.0.0".to_string(),
    }
}

#[test]
fn display_size_from_panels() {
    let c = config();
    assert_eq!(c.display_width(), 128);
    assert_eq!(c.display_height(), 96);
}

#[test]
fn matrix_options_follow_config() {
    let o = MatrixOptions::from_config(&config());
    assert_eq!((o.rows, o.cols, o.chain_length, o.parallel), (32, 64, 2, 3));
    assert_eq!(o.brightness, 80);
    assert_eq!(o.multiplexing, Some("Stripe".to_string()));
    assert_eq!(o.limit_refresh, 120);
    assert_eq!(o.gpio_slowdown, Some(2));
}

#[test]
fn storage_paths() {
    let m = StorageManager::new(Some("/tmp/sign".to_string()));
    assert_eq!(m.get_file_path(PLAYLIST_FILE), "/tmp/sign/playlist.json");
    assert_eq!(m.image_file_path("abc"), "/tmp/sign/images/abc.png");
    let app = create_storage(None);
    assert_eq!(app.image_path("x"), "/var/lib/led-matrix-controller/images/x.png");
    let missing = StorageManager::new(Some("/nonexistent/led/sign/dir".to_string()));
    assert!(!missing.file_exists(PLAYLIST_FILE));
}

fn image(id: &str) -> PlayListItem {
    PlayListItem {
        id: format!("item-{}", id),
        duration: Some(3),
        repeat_count: None,
        border_effect: None,
        content: ContentData {
            content_type: ContentType::Image,
            data: ContentDetails::Image(ImageContent {
                image_id: id.to_string(),
                natural_width: 1,
                natural_height: 1,
                transform: ImageTransform { x: 0, y: 0, scale: ONE },
                animation: None,
            }),
        },
    }
}

#[test]
fn unused_images_are_the_unreferenced_pngs() {
    let text = PlayListItem {
        id: "t".to_string(),
        duration: Some(1),
        repeat_count: None,
        border_effect: None,
        content: ContentData {
            content_type: ContentType::Text,
            data: ContentDetails::Text(TextContent {
                text: "x".to_string(),
                scroll: false,
                color: [1, 1, 1],
                speed: 1,
                text_segments: None,
            }),
        },
    };
    let playlist = Playlist { items: vec![image("a"), text, image("b")], active_index: 0, repeat: true };
    let ids = referenced_image_ids(&playlist);
    assert_eq!(ids, vec!["a".to_string(), "b".to_string()]);
    assert!(!is_unused_image("png", "a", &ids));
    assert!(is_unused_image("PNG", "c", &ids));
    assert!(is_unused_image("pNg", "c", &ids));
    assert!(!is_unused_image("jpg", "c", &ids));
    assert!(!is_unused_image("pngx", "c", &ids));
}
