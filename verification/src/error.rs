//! The error type shared by every fallible operation of the library.

use vstd::prelude::*;
use vstd::string::StringExecFns;

verus! {

/// Everything that can end a capture, a configuration step or an export.
///
/// Failures that originate outside the library (file system, image codec,
/// portal) are carried by their rendered message.
#[derive(Debug, Clone, PartialEq, Eq)]
pub enum ScreenshotError {
    CaptureFailed(String),
    Io(String),
    Image(String),
    Portal(String),
    Config(String),
    ConfigParse(String),
    InvalidRegion(String),
    NoDisplay,
    BackendUnavailable,
    Cancelled,
    Gui(String),
    Unknown(String),
}

impl ScreenshotError {
    /// The fixed text that opens the rendered message of each variant.
    pub open spec fn prefix(self) -> Seq<char> {
        match self {
            ScreenshotError::CaptureFailed(_) => "Capture failed: "@,
            ScreenshotError::Io(_) => "IO error: "@,
            ScreenshotError::Image(_) => "Image processing error: "@,
            ScreenshotError::Portal(_) => "Portal error: "@,
            ScreenshotError::Config(_) => "Invalid configuration: "@,
            ScreenshotError::ConfigParse(_) => "Configuration parse error: "@,
            ScreenshotError::InvalidRegion(_) => "Invalid region: "@,
            ScreenshotError::NoDisplay => "No display found"@,
            ScreenshotError::BackendUnavailable => "Backend not available"@,
            ScreenshotError::Cancelled => "Operation cancelled"@,
            ScreenshotError::Gui(_) => "GUI error: "@,
            ScreenshotError::Unknown(_) => "Unknown error: "@,
        }
    }

    /// The detail carried by the variant; empty where it carries none.
    pub open spec fn detail(self) -> Seq<char> {
        match self {
            ScreenshotError::CaptureFailed(s) => s@,
            ScreenshotError::Io(s) => s@,
            ScreenshotError::Image(s) => s@,
            ScreenshotError::Portal(s) => s@,
            ScreenshotError::Config(s) => s@,
            ScreenshotError::ConfigParse(s) => s@,
            ScreenshotError::InvalidRegion(s) => s@,
            ScreenshotError::NoDisplay => Seq::empty(),
            ScreenshotError::BackendUnavailable => Seq::empty(),
            ScreenshotError::Cancelled => Seq::empty(),
            ScreenshotError::Gui(s) => s@,
            ScreenshotError::Unknown(s) => s@,
        }
    }

    /// The human-readable message: the variant's prefix followed by its
    /// detail.
    pub fn message(&self) -> (text: String)
        ensures
            text@ == self.prefix() + self.detail(),
    {
        match self {
            ScreenshotError::CaptureFailed(s) => String::from_str("Capture failed: ").concat(
                s.as_str(),
            ),
            ScreenshotError::Io(s) => String::from_str("IO error: ").concat(s.as_str()),
            ScreenshotError::Image(s) => String::from_str("Image processing error: ").concat(
                s.as_str(),
            ),
            ScreenshotError::Portal(s) => String::from_str("Portal error: ").concat(s.as_str()),
            ScreenshotError::Config(s) => String::from_str("Invalid configuration: ").concat(
                s.as_str(),
            ),
            ScreenshotError::ConfigParse(s) => String::from_str(
                "Configuration parse error: ",
            ).concat(s.as_str()),
            ScreenshotError::InvalidRegion(s) => String::from_str("Invalid region: ").concat(
                s.as_str(),
            ),
            ScreenshotError::NoDisplay => String::from_str("No display found"),
            ScreenshotError::BackendUnavailable => String::from_str("Backend not available"),
            ScreenshotError::Cancelled => String::from_str("Operation cancelled"),
            ScreenshotError::Gui(s) => String::from_str("GUI error: ").concat(s.as_str()),
            ScreenshotError::Unknown(s) => String::from_str("Unknown error: ").concat(s.as_str()),
        }
    }
}

} // verus!
