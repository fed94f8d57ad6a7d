use just_a_simple_wayland_screenshot_tool::{Encoding, Exporter, FileEncoding, OutputFormat, ScreenshotError};

#[test]
fn messages_open_with_the_kind_of_error() {
    let d = "x".to_string();
    assert_eq!(ScreenshotError::CaptureFailed(d.clone()).message(), "Capture failed: x");
    assert_eq!(ScreenshotError::Io(d.clone()).message(), "IO error: x");
    assert_eq!(ScreenshotError::Image(d.clone()).message(), "Image processing error: x");
    assert_eq!(ScreenshotError::Portal(d.clone()).message(), "Portal error: x");
    assert_eq!(ScreenshotError::Config(d.clone()).message(), "Invalid configuration: x");
    assert_eq!(ScreenshotError::ConfigParse(d.clone()).message(), "Configuration parse error: x");
    assert_eq!(ScreenshotError::InvalidRegion(d.clone()).message(), "Invalid region: x");
    assert_eq!(ScreenshotError::Gui(d.clone()).message(), "GUI error: x");
    assert_eq!(ScreenshotError::Unknown(d).message(), "Unknown error: x");
}

#[test]
fn messages_of_errors_without_detail() {
    assert_eq!(ScreenshotError::NoDisplay.message(), "No display found");
    assert_eq!(ScreenshotError::BackendUnavailable.message(), "Backend not available");
    assert_eq!(ScreenshotError::Cancelled.message(), "Operation cancelled");
}

#[test]
fn the_message_of_a_region_out_of_bounds() {
    let e = ScreenshotError::InvalidRegion("Region out of bounds".to_string());
    assert_eq!(e.message(), "Invalid region: Region out of bounds");
}

#[test]
fn files_are_encoded_by_format() {
    assert_eq!(
        Exporter::file_encoding(OutputFormat::Png),
        Ok(FileEncoding { encoding: Encoding::Png, opaque: false })
    );
    assert_eq!(
        Exporter::file_encoding(OutputFormat::Jpeg),
        Ok(FileEncoding { encoding: Encoding::Jpeg, opaque: true })
    );
    assert_eq!(
        Exporter::file_encoding(OutputFormat::Webp),
        Ok(FileEncoding { encoding: Encoding::WebP, opaque: false })
    );
}

#[test]
fn the_clipboard_is_no_file() {
    assert_eq!(
        Exporter::file_encoding(OutputFormat::Clipboard),
        Err(ScreenshotError::Config("Use copy_to_clipboard instead".to_string()))
    );
}
