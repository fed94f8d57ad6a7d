//! How a capture leaves: the encoding of the file it is written to.

use vstd::prelude::*;
use vstd::string::StringExecFns;

use crate::error::ScreenshotError;
use crate::mode::OutputFormat;

verus! {

/// The export of captures.
#[derive(Debug, Clone, Copy)]
pub struct Exporter;

/// The encodings a capture can be written in.
#[derive(Debug, Clone, Copy, PartialEq, Eq, Structural)]
pub enum Encoding {
    Png,
    Jpeg,
    WebP,
}

/// How a capture is written to a file.
#[derive(Debug, Clone, Copy, PartialEq, Eq, Structural)]
pub struct FileEncoding {
    pub encoding: Encoding,
    /// Whether the alpha channel is dropped before encoding.
    pub opaque: bool,
}

/// The text of the error for a capture that is bound for the clipboard.
pub open spec fn clipboard_is_no_file_text() -> Seq<char> {
    "Use copy_to_clipboard instead"@
}

impl Exporter {
    /// How a capture of `format` is written to a file, where it is written
    /// to one at all.
    pub open spec fn encoding_of(format: OutputFormat) -> Option<FileEncoding> {
        match format {
            OutputFormat::Png => Some(FileEncoding { encoding: Encoding::Png, opaque: false }),
            OutputFormat::Jpeg => Some(FileEncoding { encoding: Encoding::Jpeg, opaque: true }),
            OutputFormat::Webp => Some(FileEncoding { encoding: Encoding::WebP, opaque: false }),
            OutputFormat::Clipboard => None,
        }
    }

    /// How a capture of `format` is written to a file. JPEG carries no
    /// alpha, so the channel is dropped first; the clipboard is no file and
    /// is refused.
    pub fn file_encoding(format: OutputFormat) -> (r: Result<FileEncoding, ScreenshotError>)
        ensures
            match Exporter::encoding_of(format) {
                Some(e) => r == Ok::<FileEncoding, ScreenshotError>(e),
                None => r matches Err(e) && e matches ScreenshotError::Config(text) && text@
                    == clipboard_is_no_file_text(),
            },
    {
        match format {
            OutputFormat::Png => Ok(FileEncoding { encoding: Encoding::Png, opaque: false }),
            OutputFormat::Jpeg => Ok(FileEncoding { encoding: Encoding::Jpeg, opaque: true }),
            OutputFormat::Webp => Ok(FileEncoding { encoding: Encoding::WebP, opaque: false }),
            OutputFormat::Clipboard => Err(
                ScreenshotError::Config(String::from_str("Use copy_to_clipboard instead")),
            ),
        }
    }
}

} // verus!
