//! The command line as plain values, and what a run of the tool is to do
//! with it: which capture to take, how to export it, and what each
//! subcommand's words select.

use vstd::prelude::*;
use vstd::string::{StringExecFns, StringSliceAdditionalSpecFns};
use vstd::utf8::encode_utf8;

use crate::capture::CaptureOptions;
use crate::config::Config;
use crate::error::ScreenshotError;
use crate::mode::{lowercase_of, same_text, CaptureMode, OutputFormat};
use crate::parse::{contents, fields, parse_i32, parse_u32, parsed_i32, parsed_u32, split_fields};
use crate::region::Region;

verus! {

/// The arguments of a capture run.
#[derive(Debug, Clone)]
pub struct Args {
    pub mode: Option<String>,
    pub output: Option<std::path::PathBuf>,
    pub format: Option<String>,
    pub delay: Option<u64>,
    pub clipboard: bool,
    pub cursor: bool,
    pub quiet: bool,
    pub json: bool,
    pub headless: bool,
    pub region: Option<String>,
    pub monitor: Option<usize>,
}

/// The capture that a run takes.
#[derive(Debug, Clone, Copy, PartialEq, Eq, Structural)]
pub struct CapturePlan {
    pub mode: CaptureMode,
    pub format: OutputFormat,
    pub options: CaptureOptions,
}

/// What a run does with its capture.
#[derive(Debug, Clone, Copy, PartialEq, Eq, Structural)]
pub struct ExportPlan {
    /// Write the capture to the output file.
    pub write_file: bool,
    /// Print the path of the file written.
    pub print_path: bool,
    /// Print the metadata of the capture as JSON.
    pub print_metadata: bool,
    /// Copy the capture to the clipboard.
    pub copy_to_clipboard: bool,
}

/// What the `list` subcommand lists.
#[derive(Debug, Clone, Copy, PartialEq, Eq, Structural)]
pub enum ListTarget {
    Displays,
    Windows,
}

/// The shells that completions are generated for.
#[derive(Debug, Clone, Copy, PartialEq, Eq, Structural)]
pub enum ShellKind {
    Bash,
    Zsh,
    Fish,
    PowerShell,
}

/// What the `config` subcommand does.
#[derive(Debug, Clone, Copy, PartialEq, Eq, Structural)]
pub enum ConfigAction {
    /// Write the default settings over the stored ones.
    Reset,
    /// Open the stored settings in an editor.
    Edit,
    /// Print the settings in use.
    Show,
}

/// The region that a text of four comma-separated numbers writes: `x` and
/// `y` signed, `width` and `height` unsigned. The text is given by its
/// bytes.
pub open spec fn region_of_text(text: Seq<u8>) -> Option<Region> {
    let parts = fields(text);
    if parts.len() == 4 {
        match (parsed_i32(parts[0]), parsed_i32(parts[1]), parsed_u32(parts[2]), parsed_u32(
            parts[3],
        )) {
            (Some(x), Some(y), Some(width), Some(height)) => Some(Region { x, y, width, height }),
            _ => None,
        }
    } else {
        None
    }
}

/// What a size text asks for.
pub enum SizeRequest {
    /// The text is not two fields: no size is asked for.
    Absent,
    /// The first field is no `u32`.
    BadWidth,
    /// The second field is no `u32`.
    BadHeight,
    /// A size.
    Size(u32, u32),
}

/// What a text of two comma-separated numbers asks for as a size.
pub open spec fn size_of_text(text: Seq<u8>) -> SizeRequest {
    let parts = fields(text);
    if parts.len() == 2 {
        match parsed_u32(parts[0]) {
            None => SizeRequest::BadWidth,
            Some(width) => match parsed_u32(parts[1]) {
                None => SizeRequest::BadHeight,
                Some(height) => SizeRequest::Size(width, height),
            },
        }
    } else {
        SizeRequest::Absent
    }
}

/// Reads a region written as `x,y,width,height`.
pub fn parse_region(text: &str) -> (r: Option<Region>)
    ensures
        r == region_of_text(encode_utf8(text@)),
{
    let parts = split_fields(text.as_bytes());
    assert(contents(parts@).len() == parts@.len());
    if parts.len() != 4 {
        return None;
    }
    assert(contents(parts@)[0] == parts@[0]@);
    assert(contents(parts@)[1] == parts@[1]@);
    assert(contents(parts@)[2] == parts@[2]@);
    assert(contents(parts@)[3] == parts@[3]@);
    let x = parse_i32(parts[0].as_slice());
    let y = parse_i32(parts[1].as_slice());
    let width = parse_u32(parts[2].as_slice());
    let height = parse_u32(parts[3].as_slice());
    match (x, y, width, height) {
        (Some(x), Some(y), Some(width), Some(height)) => Some(Region::new(x, y, width, height)),
        _ => None,
    }
}

/// Reads the size that a resize is asked with, written as `width,height`.
/// A text that is not two fields asks for no resize; a field that is no
/// number is an error of the configuration.
pub fn parse_size(text: &str) -> (r: Result<Option<(u32, u32)>, ScreenshotError>)
    ensures
        match size_of_text(encode_utf8(text@)) {
            SizeRequest::Absent => r matches Ok(None),
            SizeRequest::BadWidth => r matches Err(ScreenshotError::Config(t)) && t@
                == "Invalid width"@,
            SizeRequest::BadHeight => r matches Err(ScreenshotError::Config(t)) && t@
                == "Invalid height"@,
            SizeRequest::Size(width, height) => r matches Ok(Some(size)) && size == (
                width,
                height,
            ),
        },
{
    let parts = split_fields(text.as_bytes());
    assert(contents(parts@).len() == parts@.len());
    if parts.len() != 2 {
        return Ok(None);
    }
    assert(contents(parts@)[0] == parts@[0]@);
    assert(contents(parts@)[1] == parts@[1]@);
    let width = match parse_u32(parts[0].as_slice()) {
        Some(w) => w,
        None => {
            return Err(ScreenshotError::Config(String::from_str("Invalid width")));
        },
    };
    let height = match parse_u32(parts[1].as_slice()) {
        Some(h) => h,
        None => {
            return Err(ScreenshotError::Config(String::from_str("Invalid height")));
        },
    };
    Ok(Some((width, height)))
}

impl Args {
    /// The mode that the arguments name, if they name one.
    pub open spec fn named_mode(self) -> Option<CaptureMode> {
        match self.mode {
            Some(word) => CaptureMode::of_keyword(lowercase_of(word@)),
            None => None,
        }
    }

    /// The format that the arguments name, if they name one.
    pub open spec fn named_format(self) -> Option<OutputFormat> {
        match self.format {
            Some(word) => OutputFormat::of_keyword(lowercase_of(word@)),
            None => None,
        }
    }

    /// The region that the arguments write, if they write one.
    pub open spec fn written_region(self) -> Option<Region> {
        match self.region {
            Some(text) => region_of_text(encode_utf8(text@)),
            None => None,
        }
    }

    pub fn parse_mode(&self) -> (mode: Option<CaptureMode>)
        ensures
            mode == self.named_mode(),
    {
        match &self.mode {
            Some(word) => match CaptureMode::parse(word.as_str()) {
                Ok(mode) => Some(mode),
                Err(_) => None,
            },
            None => None,
        }
    }

    pub fn parse_format(&self) -> (format: Option<OutputFormat>)
        ensures
            format == self.named_format(),
    {
        match &self.format {
            Some(word) => match OutputFormat::parse(word.as_str()) {
                Ok(format) => Some(format),
                Err(_) => None,
            },
            None => None,
        }
    }

    pub fn parse_region(&self) -> (region: Option<Region>)
        ensures
            region == self.written_region(),
    {
        match &self.region {
            Some(text) => parse_region(text.as_str()),
            None => None,
        }
    }
}

impl CapturePlan {
    /// The capture that `args` and `config` ask for together: what the
    /// arguments leave open, the configuration settles.
    pub open spec fn of(args: Args, config: Config) -> CapturePlan {
        CapturePlan {
            mode: match args.named_mode() {
                Some(mode) => mode,
                None => config.default_mode,
            },
            format: match args.named_format() {
                Some(format) => format,
                None => config.default_format,
            },
            options: CaptureOptions {
                delay: match args.delay {
                    Some(seconds) => Some(seconds),
                    None => Some(config.delay_seconds),
                },
                include_cursor: args.cursor || config.include_cursor,
                monitor_index: args.monitor,
                region: args.written_region(),
            },
        }
    }

    /// The capture that follows a committed selection: the whole screen is
    /// captured without the service's own picker and cropped to `global`,
    /// the committed region; everything else is as configured.
    pub open spec fn of_selection(global: Region, config: Config) -> CapturePlan {
        CapturePlan {
            mode: CaptureMode::Screen,
            format: config.default_format,
            options: CaptureOptions {
                delay: Some(config.delay_seconds),
                include_cursor: config.include_cursor,
                monitor_index: None,
                region: Some(global),
            },
        }
    }

    /// Settles the capture that follows a committed selection.
    pub fn for_selection(global: Region, config: &Config) -> (plan: CapturePlan)
        ensures
            plan == CapturePlan::of_selection(global, *config),
            !plan.mode.interactive(),
    {
        CapturePlan {
            mode: CaptureMode::Screen,
            format: config.default_format,
            options: CaptureOptions {
                delay: Some(config.delay_seconds),
                include_cursor: config.include_cursor,
                monitor_index: None,
                region: Some(global),
            },
        }
    }

    /// Settles the capture of a run from its arguments and the
    /// configuration.
    pub fn resolve(args: &Args, config: &Config) -> (plan: CapturePlan)
        ensures
            plan == CapturePlan::of(*args, *config),
    {
        CapturePlan {
            mode: match args.parse_mode() {
                Some(mode) => mode,
                None => config.default_mode,
            },
            format: match args.parse_format() {
                Some(format) => format,
                None => config.default_format,
            },
            options: CaptureOptions {
                delay: match args.delay {
                    Some(seconds) => Some(seconds),
                    None => Some(config.delay_seconds),
                },
                include_cursor: args.cursor || config.include_cursor,
                monitor_index: args.monitor,
                region: args.parse_region(),
            },
        }
    }
}

impl ExportPlan {
    /// What becomes of a capture in `format`: a capture for the clipboard
    /// is only copied; any other is written to a file, announced unless the
    /// run is quiet, and copied as well where that is asked or configured.
    pub open spec fn of(format: OutputFormat, args: Args, config: Config) -> ExportPlan {
        if format == OutputFormat::Clipboard {
            ExportPlan {
                write_file: false,
                print_path: false,
                print_metadata: false,
                copy_to_clipboard: true,
            }
        } else {
            ExportPlan {
                write_file: true,
                print_path: !args.quiet,
                print_metadata: !args.quiet && args.json,
                copy_to_clipboard: args.clipboard || config.auto_copy_to_clipboard,
            }
        }
    }

    /// Settles what a run does with its capture.
    pub fn resolve(format: OutputFormat, args: &Args, config: &Config) -> (plan: ExportPlan)
        ensures
            plan == ExportPlan::of(format, *args, *config),
    {
        match format {
            OutputFormat::Clipboard => ExportPlan {
                write_file: false,
                print_path: false,
                print_metadata: false,
                copy_to_clipboard: true,
            },
            _ => ExportPlan {
                write_file: true,
                print_path: !args.quiet,
                print_metadata: !args.quiet && args.json,
                copy_to_clipboard: args.clipboard || config.auto_copy_to_clipboard,
            },
        }
    }
}

impl ListTarget {
    pub open spec fn named(word: Seq<char>) -> Option<ListTarget> {
        if word == "displays"@ || word == "monitors"@ {
            Some(ListTarget::Displays)
        } else if word == "windows"@ {
            Some(ListTarget::Windows)
        } else {
            None
        }
    }

    /// What a word asks the `list` subcommand for.
    pub fn of(word: &str) -> (target: Option<ListTarget>)
        ensures
            target == ListTarget::named(word@),
    {
        if same_text(word, "displays") || same_text(word, "monitors") {
            Some(ListTarget::Displays)
        } else if same_text(word, "windows") {
            Some(ListTarget::Windows)
        } else {
            None
        }
    }
}

impl ShellKind {
    pub open spec fn named(word: Seq<char>) -> Option<ShellKind> {
        if word == "bash"@ {
            Some(ShellKind::Bash)
        } else if word == "zsh"@ {
            Some(ShellKind::Zsh)
        } else if word == "fish"@ {
            Some(ShellKind::Fish)
        } else if word == "powershell"@ {
            Some(ShellKind::PowerShell)
        } else {
            None
        }
    }

    /// The shell that a word names.
    pub fn of(word: &str) -> (shell: Option<ShellKind>)
        ensures
            shell == ShellKind::named(word@),
    {
        if same_text(word, "bash") {
            Some(ShellKind::Bash)
        } else if same_text(word, "zsh") {
            Some(ShellKind::Zsh)
        } else if same_text(word, "fish") {
            Some(ShellKind::Fish)
        } else if same_text(word, "powershell") {
            Some(ShellKind::PowerShell)
        } else {
            None
        }
    }
}

impl ConfigAction {
    /// What the flags of the `config` subcommand select: a reset before an
    /// edit, and showing where neither is asked.
    pub fn of(show: bool, reset: bool, edit: bool) -> (action: ConfigAction)
        ensures
            action == (if reset {
                ConfigAction::Reset
            } else if edit {
                ConfigAction::Edit
            } else {
                ConfigAction::Show
            }),
    {
        if reset {
            ConfigAction::Reset
        } else if edit {
            ConfigAction::Edit
        } else {
            ConfigAction::Show
        }
    }
}

} // verus!
