//! The settings of the tool and their defaults.

use vstd::prelude::*;
use vstd::string::StringExecFns;

use crate::mode::{CaptureMode, OutputFormat};

verus! {

/// `std::path::PathBuf`, carried through as it is: nothing is read from it.
#[verifier::external_type_specification]
#[verifier::external_body]
pub struct ExPathBuf(std::path::PathBuf);

/// `PathBuf::clone` returns a path equal to the one it was given.
pub assume_specification[ <std::path::PathBuf as Clone>::clone ](
    path: &std::path::PathBuf,
) -> (copy: std::path::PathBuf)
    ensures
        copy == *path,
;

/// The settings of the tool.
#[derive(Debug, Clone)]
pub struct Config {
    pub default_mode: CaptureMode,
    pub default_format: OutputFormat,
    pub save_directory: std::path::PathBuf,
    pub filename_template: String,
    pub auto_copy_to_clipboard: bool,
    pub delay_seconds: u64,
    pub include_cursor: bool,
    pub gui: GuiConfig,
    pub shortcuts: ShortcutConfig,
}

/// The settings of the overlay and the editor. The style classes are kept
/// in the order they were given, each name once.
#[derive(Debug, Clone)]
pub struct GuiConfig {
    pub animation: AnimationConfig,
    pub css_classes: Vec<(String, String)>,
    pub editor_enabled: bool,
}

/// The settings of the overlay's opening animation.
#[derive(Debug, Clone)]
pub struct AnimationConfig {
    pub duration_ms: u64,
    pub easing: String,
    pub start_shape: String,
    pub end_shape: String,
}

/// The keys bound to the tool's actions.
#[derive(Debug, Clone)]
pub struct ShortcutConfig {
    pub save: String,
    pub cancel: String,
    pub undo: String,
    pub redo: String,
    pub copy: String,
}

/// Names and styles of a list of style classes.
pub open spec fn class_views(classes: Seq<(String, String)>) -> Seq<(Seq<char>, Seq<char>)> {
    Seq::new(classes.len(), |i: int| (classes[i].0@, classes[i].1@))
}

/// No class name occurs twice.
pub open spec fn distinct_names(classes: Seq<(Seq<char>, Seq<char>)>) -> bool {
    forall|i: int, j: int|
        0 <= i < j < classes.len() ==> (#[trigger] classes[i]).0 != (#[trigger] classes[j]).0
}

impl ShortcutConfig {
    pub open spec fn is_default(self) -> bool {
        &&& self.save@ == "space"@
        &&& self.cancel@ == "Escape"@
        &&& self.undo@ == "Ctrl+z"@
        &&& self.redo@ == "Ctrl+y"@
        &&& self.copy@ == "Ctrl+c"@
    }
}

impl Default for ShortcutConfig {
    fn default() -> (shortcuts: Self)
        ensures
            shortcuts.is_default(),
    {
        ShortcutConfig {
            save: String::from_str("space"),
            cancel: String::from_str("Escape"),
            undo: String::from_str("Ctrl+z"),
            redo: String::from_str("Ctrl+y"),
            copy: String::from_str("Ctrl+c"),
        }
    }
}

impl AnimationConfig {
    pub open spec fn is_default(self) -> bool {
        &&& self.duration_ms == 800
        &&& self.easing@ == "ease-in-out"@
        &&& self.start_shape@ == "circle"@
        &&& self.end_shape@ == "rounded-rect"@
    }
}

impl Default for AnimationConfig {
    fn default() -> (animation: Self)
        ensures
            animation.is_default(),
    {
        AnimationConfig {
            duration_ms: 800,
            easing: String::from_str("ease-in-out"),
            start_shape: String::from_str("circle"),
            end_shape: String::from_str("rounded-rect"),
        }
    }
}

impl GuiConfig {
    /// The style classes a fresh configuration starts with.
    pub open spec fn default_classes() -> Seq<(Seq<char>, Seq<char>)> {
        seq![
            ("circle"@, "border-radius: 50%; background: rgba(76, 154, 255, 0.8);"@),
            ("rounded-rect"@, "border-radius: 20px; background: rgba(76, 154, 255, 0.8);"@),
        ]
    }

    pub open spec fn is_default(self) -> bool {
        &&& self.animation.is_default()
        &&& class_views(self.css_classes@) == GuiConfig::default_classes()
        &&& self.editor_enabled
    }

    /// No style class is named twice.
    pub open spec fn wf(self) -> bool {
        distinct_names(class_views(self.css_classes@))
    }

    /// The style classes a fresh configuration starts with: one for each
    /// end of the opening animation.
    pub fn default_css_classes() -> (classes: Vec<(String, String)>)
        ensures
            class_views(classes@) == GuiConfig::default_classes(),
            distinct_names(class_views(classes@)),
    {
        let mut classes: Vec<(String, String)> = Vec::new();
        classes.push(
            (
                String::from_str("circle"),
                String::from_str("border-radius: 50%; background: rgba(76, 154, 255, 0.8);"),
            ),
        );
        classes.push(
            (
                String::from_str("rounded-rect"),
                String::from_str("border-radius: 20px; background: rgba(76, 154, 255, 0.8);"),
            ),
        );
        proof {
            assert(class_views(classes@) =~= GuiConfig::default_classes());
            reveal_strlit("circle");
            reveal_strlit("rounded-rect");
            assert("circle"@.len() != "rounded-rect"@.len());
        }
        classes
    }

    /// The style of the class named `name`, if there is one.
    pub fn css_class(&self, name: &str) -> (style: Option<&String>)
        ensures
            match style {
                Some(s) => exists|i: int|
                    0 <= i < self.css_classes@.len() && (#[trigger] self.css_classes@[i]).0@
                        == name@ && self.css_classes@[i].1 == *s,
                None => forall|i: int|
                    0 <= i < self.css_classes@.len() ==> (#[trigger] self.css_classes@[i]).0@
                        != name@,
            },
    {
        let mut i: usize = 0;
        while i < self.css_classes.len()
            invariant
                i <= self.css_classes@.len(),
                forall|k: int| 0 <= k < i ==> (#[trigger] self.css_classes@[k]).0@ != name@,
            decreases self.css_classes@.len() - i,
        {
            if crate::mode::same_text(self.css_classes[i].0.as_str(), name) {
                return Some(&self.css_classes[i].1);
            }
            i += 1;
        }
        None
    }
}

impl Default for GuiConfig {
    fn default() -> (gui: Self)
        ensures
            gui.is_default(),
            gui.wf(),
    {
        GuiConfig {
            animation: AnimationConfig::default(),
            css_classes: GuiConfig::default_css_classes(),
            editor_enabled: true,
        }
    }
}

impl Config {
    /// The text of the default file name template.
    pub open spec fn default_template() -> Seq<char> {
        "screenshot_%Y%m%d_%H%M%S"@
    }

    /// The settings of a fresh installation that saves into
    /// `save_directory`: captures of a region, as PNG, at once and without
    /// the cursor, and nothing copied to the clipboard unasked.
    pub fn with_save_directory(save_directory: std::path::PathBuf) -> (config: Self)
        ensures
            config.save_directory == save_directory,
            config.default_mode == CaptureMode::Region,
            config.default_format == OutputFormat::Png,
            config.filename_template@ == Config::default_template(),
            !config.auto_copy_to_clipboard,
            config.delay_seconds == 0,
            !config.include_cursor,
            config.gui.is_default(),
            config.gui.wf(),
            config.shortcuts.is_default(),
    {
        Config {
            default_mode: CaptureMode::Region,
            default_format: OutputFormat::Png,
            save_directory,
            filename_template: String::from_str("screenshot_%Y%m%d_%H%M%S"),
            auto_copy_to_clipboard: false,
            delay_seconds: 0,
            include_cursor: false,
            gui: GuiConfig::default(),
            shortcuts: ShortcutConfig::default(),
        }
    }
}

} // verus!
