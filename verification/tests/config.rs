use image_converter::config::{get_config_file, ConvertConfig, Settings};
use image_converter::state::must_new_state;

fn empty() -> ConvertConfig {
    ConvertConfig {
        avif_quality: None,
        support_avif: None,
        webp_quality: None,
        support_webp: None,
        png_quality: None,
        support_png: None,
        jpeg_quality: None,
        support_jpeg: None,
    }
}

#[test]
fn missing_entries_get_defaults() {
    let s = empty().settings();
    assert_eq!(s.avif_quality, 70);
    assert_eq!(s.webp_quality, 80);
    assert_eq!(s.png_quality, 80);
    assert_eq!(s.jpeg_quality, 80);
    assert!(s.support_avif && s.support_webp && s.support_png && s.support_jpeg);
}

#[test]
fn stored_entries_win() {
    let mut c = empty();
    c.avif_quality = Some(55);
    c.support_png = Some(false);
    let s = c.settings();
    assert_eq!(s.avif_quality, 55);
    assert!(!s.support_png);
    assert_eq!(s.png_quality, 80);
}

#[test]
fn document_round_trip() {
    let s = Settings {
        avif_quality: 1,
        support_avif: false,
        webp_quality: 2,
        support_webp: true,
        png_quality: 3,
        support_png: false,
        jpeg_quality: 4,
        support_jpeg: true,
    };
    assert_eq!(s.document().settings(), s);
}

#[test]
fn a_format_that_is_off_gets_quality_zero() {
    let s = Settings {
        avif_quality: 60,
        support_avif: false,
        webp_quality: 75,
        support_webp: true,
        png_quality: 90,
        support_png: false,
        jpeg_quality: 85,
        support_jpeg: true,
    };
    let mut state = must_new_state();
    s.apply(&mut state);
    assert_eq!(state.avif_quality, 0);
    assert_eq!(state.webp_quality, 75);
    assert_eq!(state.png_quality, 0);
    assert_eq!(state.jpeg_quality, 85);
    assert!(!state.processing);
}

#[test]
fn config_file_lies_below_home() {
    assert_eq!(
        get_config_file(Some("/home/u".to_string())),
        Some("/home/u/.image-converter/config.yml".to_string())
    );
    assert_eq!(get_config_file(None), None);
}
