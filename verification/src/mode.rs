//! What is captured and in which format it leaves, with the words that
//! name both on the command line.

use vstd::prelude::*;
use vstd::string::StringExecFns;

verus! {

/// What a capture takes in.
#[derive(Debug, Clone, Copy, PartialEq, Eq, Structural)]
pub enum CaptureMode {
    Screen,
    Window,
    Region,
    Monitor,
}

/// How a capture leaves.
#[derive(Debug, Clone, Copy, PartialEq, Eq, Structural)]
pub enum OutputFormat {
    Png,
    Jpeg,
    Webp,
    Clipboard,
}

/// What `str::to_lowercase` returns for a text.
pub uninterp spec fn lowercase_of(text: Seq<char>) -> Seq<char>;

/// `str::to_lowercase`: the lowercase equivalent of the text, as a new
/// string. The mapping is Unicode's and is named, not spelled out.
#[verifier::external_body]
fn to_lowercase(text: &str) -> (lower: String)
    ensures
        lower@ == lowercase_of(text@),
{
    text.to_lowercase()
}

/// Whether two texts are the same.
pub fn same_text(a: &str, b: &str) -> (same: bool)
    ensures
        same == (a@ == b@),
{
    let left = String::from_str(a);
    let right = String::from_str(b);
    left == right
}

/// The text of the error for a word that names no capture mode.
pub open spec fn invalid_mode_text(word: Seq<char>) -> Seq<char> {
    "Invalid capture mode: "@ + word
}

/// The text of the error for a word that names no output format.
pub open spec fn invalid_format_text(word: Seq<char>) -> Seq<char> {
    "Invalid format: "@ + word
}

impl CaptureMode {
    /// The mode that a lowercase word names.
    pub open spec fn of_keyword(word: Seq<char>) -> Option<CaptureMode> {
        if word == "screen"@ || word == "fullscreen"@ || word == "full"@ {
            Some(CaptureMode::Screen)
        } else if word == "window"@ || word == "win"@ {
            Some(CaptureMode::Window)
        } else if word == "region"@ || word == "area"@ || word == "selection"@ || word
            == "select"@ {
            Some(CaptureMode::Region)
        } else if word == "monitor"@ || word == "display"@ {
            Some(CaptureMode::Monitor)
        } else {
            None
        }
    }

    /// The mode that a lowercase word names, if it names one.
    pub fn from_keyword(word: &str) -> (mode: Option<CaptureMode>)
        ensures
            mode == CaptureMode::of_keyword(word@),
    {
        if same_text(word, "screen") || same_text(word, "fullscreen") || same_text(word, "full") {
            Some(CaptureMode::Screen)
        } else if same_text(word, "window") || same_text(word, "win") {
            Some(CaptureMode::Window)
        } else if same_text(word, "region") || same_text(word, "area") || same_text(
            word,
            "selection",
        ) || same_text(word, "select") {
            Some(CaptureMode::Region)
        } else if same_text(word, "monitor") || same_text(word, "display") {
            Some(CaptureMode::Monitor)
        } else {
            None
        }
    }

    /// Reads a mode from a word, without regard to case.
    pub fn parse(word: &str) -> (r: Result<CaptureMode, String>)
        ensures
            match CaptureMode::of_keyword(lowercase_of(word@)) {
                Some(mode) => r == Ok::<CaptureMode, String>(mode),
                None => r matches Err(text) && text@ == invalid_mode_text(word@),
            },
    {
        let lower = to_lowercase(word);
        match CaptureMode::from_keyword(lower.as_str()) {
            Some(mode) => Ok(mode),
            None => Err(String::from_str("Invalid capture mode: ").concat(word)),
        }
    }

    /// Whether the capture service is asked to show its own picker: it is
    /// for a window or a region, and not for a whole screen or monitor.
    pub open spec fn interactive(self) -> bool {
        self == CaptureMode::Window || self == CaptureMode::Region
    }

    /// Whether the capture service is asked to show its own picker.
    pub fn is_interactive(&self) -> (b: bool)
        ensures
            b == self.interactive(),
    {
        match self {
            CaptureMode::Screen => false,
            CaptureMode::Window => true,
            CaptureMode::Region => true,
            CaptureMode::Monitor => false,
        }
    }
}

impl std::str::FromStr for CaptureMode {
    type Err = String;

    /// Reads a mode from a word, without regard to case: the mode that the
    /// lowercase of the word names, or an error that quotes the word.
    fn from_str(s: &str) -> (r: Result<Self, String>)
        ensures
            match CaptureMode::of_keyword(lowercase_of(s@)) {
                Some(mode) => r == Ok::<CaptureMode, String>(mode),
                None => r matches Err(text) && text@ == invalid_mode_text(s@),
            },
    {
        CaptureMode::parse(s)
    }
}

impl OutputFormat {
    /// The format that a lowercase word names.
    pub open spec fn of_keyword(word: Seq<char>) -> Option<OutputFormat> {
        if word == "png"@ {
            Some(OutputFormat::Png)
        } else if word == "jpg"@ || word == "jpeg"@ {
            Some(OutputFormat::Jpeg)
        } else if word == "webp"@ {
            Some(OutputFormat::Webp)
        } else if word == "clip"@ || word == "clipboard"@ {
            Some(OutputFormat::Clipboard)
        } else {
            None
        }
    }

    /// The format that a lowercase word names, if it names one.
    pub fn from_keyword(word: &str) -> (format: Option<OutputFormat>)
        ensures
            format == OutputFormat::of_keyword(word@),
    {
        if same_text(word, "png") {
            Some(OutputFormat::Png)
        } else if same_text(word, "jpg") || same_text(word, "jpeg") {
            Some(OutputFormat::Jpeg)
        } else if same_text(word, "webp") {
            Some(OutputFormat::Webp)
        } else if same_text(word, "clip") || same_text(word, "clipboard") {
            Some(OutputFormat::Clipboard)
        } else {
            None
        }
    }

    /// Reads a format from a word, without regard to case.
    pub fn parse(word: &str) -> (r: Result<OutputFormat, String>)
        ensures
            match OutputFormat::of_keyword(lowercase_of(word@)) {
                Some(format) => r == Ok::<OutputFormat, String>(format),
                None => r matches Err(text) && text@ == invalid_format_text(word@),
            },
    {
        let lower = to_lowercase(word);
        match OutputFormat::from_keyword(lower.as_str()) {
            Some(format) => Ok(format),
            None => Err(String::from_str("Invalid format: ").concat(word)),
        }
    }

    /// The format a processed image is written in, by the extension of its
    /// path: JPEG for `jpg`, WebP for `webp`, PNG for anything else.
    pub open spec fn of_extension(extension: Option<Seq<char>>) -> OutputFormat {
        match extension {
            Some(e) => if e == "jpg"@ {
                OutputFormat::Jpeg
            } else if e == "webp"@ {
                OutputFormat::Webp
            } else {
                OutputFormat::Png
            },
            None => OutputFormat::Png,
        }
    }

    /// The format a processed image is written in, by the extension of its
    /// path.
    pub fn from_extension(extension: Option<&str>) -> (format: OutputFormat)
        ensures
            format == OutputFormat::of_extension(
                match extension {
                    Some(e) => Some(e@),
                    None => None,
                },
            ),
    {
        match extension {
            Some(e) => if same_text(e, "jpg") {
                OutputFormat::Jpeg
            } else if same_text(e, "webp") {
                OutputFormat::Webp
            } else {
                OutputFormat::Png
            },
            None => OutputFormat::Png,
        }
    }

    /// The name of the file a capture is saved under: the stem with the
    /// format's extension, or the fixed name of the clipboard.
    pub open spec fn named(self, stem: Seq<char>) -> Seq<char> {
        match self {
            OutputFormat::Png => stem + ".png"@,
            OutputFormat::Jpeg => stem + ".jpg"@,
            OutputFormat::Webp => stem + ".webp"@,
            OutputFormat::Clipboard => "clipboard"@,
        }
    }

    /// The name of the file a capture is saved under.
    pub fn file_name(&self, stem: &str) -> (name: String)
        ensures
            name@ == self.named(stem@),
    {
        match self {
            OutputFormat::Png => String::from_str(stem).concat(".png"),
            OutputFormat::Jpeg => String::from_str(stem).concat(".jpg"),
            OutputFormat::Webp => String::from_str(stem).concat(".webp"),
            OutputFormat::Clipboard => String::from_str("clipboard"),
        }
    }
}

impl std::str::FromStr for OutputFormat {
    type Err = String;

    /// Reads a format from a word, without regard to case: the format that
    /// the lowercase of the word names, or an error that quotes the word.
    fn from_str(s: &str) -> (r: Result<Self, String>)
        ensures
            match OutputFormat::of_keyword(lowercase_of(s@)) {
                Some(format) => r == Ok::<OutputFormat, String>(format),
                None => r matches Err(text) && text@ == invalid_format_text(s@),
            },
    {
        OutputFormat::parse(s)
    }
}

} // verus!
