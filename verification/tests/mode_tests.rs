use just_a_simple_wayland_screenshot_tool::mode::same_text;
use just_a_simple_wayland_screenshot_tool::{CaptureMode, OutputFormat};

#[test]
fn every_mode_word_is_read() {
    let table = [
        ("screen", CaptureMode::Screen),
        ("fullscreen", CaptureMode::Screen),
        ("full", CaptureMode::Screen),
        ("window", CaptureMode::Window),
        ("win", CaptureMode::Window),
        ("region", CaptureMode::Region),
        ("area", CaptureMode::Region),
        ("selection", CaptureMode::Region),
        ("select", CaptureMode::Region),
        ("monitor", CaptureMode::Monitor),
        ("display", CaptureMode::Monitor),
    ];
    for (word, mode) in table {
        assert_eq!(CaptureMode::parse(word), Ok(mode));
        assert_eq!(CaptureMode::from_keyword(word), Some(mode));
        assert_eq!(word.parse::<CaptureMode>(), Ok(mode));
    }
}

#[test]
fn mode_words_are_read_in_any_case() {
    assert_eq!(CaptureMode::parse("SCREEN"), Ok(CaptureMode::Screen));
    assert_eq!(CaptureMode::parse("Window"), Ok(CaptureMode::Window));
    assert_eq!(CaptureMode::parse("sElEcT"), Ok(CaptureMode::Region));
    assert_eq!("DISPLAY".parse::<CaptureMode>(), Ok(CaptureMode::Monitor));
}

#[test]
fn keywords_themselves_are_lowercase_only() {
    assert_eq!(CaptureMode::from_keyword("SCREEN"), None);
    assert_eq!(OutputFormat::from_keyword("PNG"), None);
}

#[test]
fn an_unknown_mode_word_is_an_error_that_quotes_it() {
    assert_eq!(
        CaptureMode::parse("Everything"),
        Err("Invalid capture mode: Everything".to_string())
    );
    assert_eq!(CaptureMode::parse("Desktop"), Err("Invalid capture mode: Desktop".to_string()));
    assert_eq!(
        "Desktop".parse::<CaptureMode>(),
        Err("Invalid capture mode: Desktop".to_string())
    );
    assert_eq!(CaptureMode::parse(""), Err("Invalid capture mode: ".to_string()));
    assert_eq!(CaptureMode::parse(" screen"), Err("Invalid capture mode:  screen".to_string()));
}

#[test]
fn every_format_word_is_read() {
    let table = [
        ("png", OutputFormat::Png),
        ("jpg", OutputFormat::Jpeg),
        ("jpeg", OutputFormat::Jpeg),
        ("webp", OutputFormat::Webp),
        ("clip", OutputFormat::Clipboard),
        ("clipboard", OutputFormat::Clipboard),
    ];
    for (word, format) in table {
        assert_eq!(OutputFormat::parse(word), Ok(format));
        assert_eq!(OutputFormat::from_keyword(word), Some(format));
        assert_eq!(word.parse::<OutputFormat>(), Ok(format));
    }
}

#[test]
fn format_words_are_read_in_any_case() {
    assert_eq!(OutputFormat::parse("PNG"), Ok(OutputFormat::Png));
    assert_eq!(OutputFormat::parse("Jpeg"), Ok(OutputFormat::Jpeg));
    assert_eq!("WebP".parse::<OutputFormat>(), Ok(OutputFormat::Webp));
}

#[test]
fn an_unknown_format_word_is_an_error_that_quotes_it() {
    assert_eq!(OutputFormat::parse("GIF"), Err("Invalid format: GIF".to_string()));
}

#[test]
fn only_window_and_region_are_interactive() {
    assert!(!CaptureMode::Screen.is_interactive());
    assert!(CaptureMode::Window.is_interactive());
    assert!(CaptureMode::Region.is_interactive());
    assert!(!CaptureMode::Monitor.is_interactive());
}

#[test]
fn the_extension_of_a_path_selects_the_format() {
    assert_eq!(OutputFormat::from_extension(Some("jpg")), OutputFormat::Jpeg);
    assert_eq!(OutputFormat::from_extension(Some("webp")), OutputFormat::Webp);
    assert_eq!(OutputFormat::from_extension(Some("png")), OutputFormat::Png);
    assert_eq!(OutputFormat::from_extension(Some("jpeg")), OutputFormat::Png);
    assert_eq!(OutputFormat::from_extension(Some("JPG")), OutputFormat::Png);
    assert_eq!(OutputFormat::from_extension(Some("")), OutputFormat::Png);
    assert_eq!(OutputFormat::from_extension(None), OutputFormat::Png);
}

#[test]
fn the_file_name_carries_the_extension_of_the_format() {
    assert_eq!(OutputFormat::Png.file_name("shot_1"), "shot_1.png");
    assert_eq!(OutputFormat::Jpeg.file_name("shot_1"), "shot_1.jpg");
    assert_eq!(OutputFormat::Webp.file_name("shot_1"), "shot_1.webp");
    assert_eq!(OutputFormat::Clipboard.file_name("shot_1"), "clipboard");
    assert_eq!(OutputFormat::Png.file_name(""), ".png");
}

#[test]
fn same_text_compares_whole_texts() {
    assert!(same_text("abc", "abc"));
    assert!(same_text("", ""));
    assert!(!same_text("abc", "abd"));
    assert!(!same_text("abc", "ab"));
    assert!(!same_text("abc", "ABC"));
}
