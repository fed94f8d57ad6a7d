use just_a_simple_wayland_screenshot_tool::{
    Args, CaptureMode, CaptureOptions, CapturePlan, Config, ConfigAction, ExportPlan, ListTarget,
    OutputFormat, Region, ShellKind,
};
use std::path::PathBuf;

fn bare() -> Args {
    Args {
        mode: None,
        output: None,
        format: None,
        delay: None,
        clipboard: false,
        cursor: false,
        quiet: false,
        json: false,
        headless: false,
        region: None,
        monitor: None,
    }
}

fn config() -> Config {
    Config::with_save_directory(PathBuf::from("/tmp/shots"))
}

#[test]
fn parse_mode_reads_the_mode_argument() {
    let mut args = bare();
    assert_eq!(args.parse_mode(), None);
    args.mode = Some("Window".to_string());
    assert_eq!(args.parse_mode(), Some(CaptureMode::Window));
    args.mode = Some("nothing".to_string());
    assert_eq!(args.parse_mode(), None);
}

#[test]
fn parse_format_reads_the_format_argument() {
    let mut args = bare();
    assert_eq!(args.parse_format(), None);
    args.format = Some("JPG".to_string());
    assert_eq!(args.parse_format(), Some(OutputFormat::Jpeg));
    args.format = Some("bmp".to_string());
    assert_eq!(args.parse_format(), None);
}

#[test]
fn parse_region_reads_the_region_argument() {
    let mut args = bare();
    assert_eq!(args.parse_region(), None);
    args.region = Some("2020,100,200,150".to_string());
    assert_eq!(args.parse_region(), Some(Region::new(2020, 100, 200, 150)));
    args.region = Some("2020,100,200".to_string());
    assert_eq!(args.parse_region(), None);
}

#[test]
fn a_bare_run_takes_what_is_configured() {
    let plan = CapturePlan::resolve(&bare(), &config());
    assert_eq!(
        plan,
        CapturePlan {
            mode: CaptureMode::Region,
            format: OutputFormat::Png,
            options: CaptureOptions {
                delay: Some(0),
                include_cursor: false,
                monitor_index: None,
                region: None,
            },
        }
    );
}

#[test]
fn arguments_go_before_the_configuration() {
    let mut args = bare();
    args.mode = Some("screen".to_string());
    args.format = Some("webp".to_string());
    args.delay = Some(3);
    args.cursor = true;
    args.monitor = Some(1);
    args.region = Some("1,2,3,4".to_string());
    let mut cfg = config();
    cfg.default_mode = CaptureMode::Monitor;
    cfg.default_format = OutputFormat::Jpeg;
    cfg.delay_seconds = 9;
    let plan = CapturePlan::resolve(&args, &cfg);
    assert_eq!(plan.mode, CaptureMode::Screen);
    assert_eq!(plan.format, OutputFormat::Webp);
    assert_eq!(plan.options.delay, Some(3));
    assert!(plan.options.include_cursor);
    assert_eq!(plan.options.monitor_index, Some(1));
    assert_eq!(plan.options.region, Some(Region::new(1, 2, 3, 4)));
}

#[test]
fn what_the_arguments_get_wrong_the_configuration_settles() {
    let mut args = bare();
    args.mode = Some("bogus".to_string());
    args.format = Some("bogus".to_string());
    let mut cfg = config();
    cfg.default_mode = CaptureMode::Monitor;
    cfg.default_format = OutputFormat::Jpeg;
    cfg.delay_seconds = 9;
    cfg.include_cursor = true;
    let plan = CapturePlan::resolve(&args, &cfg);
    assert_eq!(plan.mode, CaptureMode::Monitor);
    assert_eq!(plan.format, OutputFormat::Jpeg);
    assert_eq!(plan.options.delay, Some(9));
    assert!(plan.options.include_cursor);
}

#[test]
fn a_selection_is_captured_from_the_whole_screen() {
    let mut cfg = config();
    cfg.delay_seconds = 2;
    let plan = CapturePlan::for_selection(Region::new(2020, 100, 200, 150), &cfg);
    assert_eq!(plan.mode, CaptureMode::Screen);
    assert!(!plan.mode.is_interactive());
    assert_eq!(plan.format, OutputFormat::Png);
    assert_eq!(plan.options.delay, Some(2));
    assert_eq!(plan.options.region, Some(Region::new(2020, 100, 200, 150)));
    assert_eq!(plan.options.monitor_index, None);
}

#[test]
fn a_file_capture_is_written_and_announced() {
    let plan = ExportPlan::resolve(OutputFormat::Png, &bare(), &config());
    assert_eq!(
        plan,
        ExportPlan {
            write_file: true,
            print_path: true,
            print_metadata: false,
            copy_to_clipboard: false,
        }
    );
}

#[test]
fn a_quiet_run_prints_nothing() {
    let mut args = bare();
    args.quiet = true;
    args.json = true;
    let plan = ExportPlan::resolve(OutputFormat::Jpeg, &args, &config());
    assert!(plan.write_file);
    assert!(!plan.print_path);
    assert!(!plan.print_metadata);
}

#[test]
fn json_prints_the_metadata() {
    let mut args = bare();
    args.json = true;
    let plan = ExportPlan::resolve(OutputFormat::Webp, &args, &config());
    assert!(plan.print_path);
    assert!(plan.print_metadata);
}

#[test]
fn a_file_capture_is_copied_where_asked_or_configured() {
    let mut args = bare();
    args.clipboard = true;
    assert!(ExportPlan::resolve(OutputFormat::Png, &args, &config()).copy_to_clipboard);
    let mut cfg = config();
    cfg.auto_copy_to_clipboard = true;
    assert!(ExportPlan::resolve(OutputFormat::Png, &bare(), &cfg).copy_to_clipboard);
}

#[test]
fn a_clipboard_capture_is_only_copied() {
    let mut args = bare();
    args.json = true;
    let plan = ExportPlan::resolve(OutputFormat::Clipboard, &args, &config());
    assert_eq!(
        plan,
        ExportPlan {
            write_file: false,
            print_path: false,
            print_metadata: false,
            copy_to_clipboard: true,
        }
    );
}

#[test]
fn list_targets_by_word() {
    assert_eq!(ListTarget::of("displays"), Some(ListTarget::Displays));
    assert_eq!(ListTarget::of("monitors"), Some(ListTarget::Displays));
    assert_eq!(ListTarget::of("windows"), Some(ListTarget::Windows));
    assert_eq!(ListTarget::of("Displays"), None);
    assert_eq!(ListTarget::of(""), None);
}

#[test]
fn shells_by_word() {
    assert_eq!(ShellKind::of("bash"), Some(ShellKind::Bash));
    assert_eq!(ShellKind::of("zsh"), Some(ShellKind::Zsh));
    assert_eq!(ShellKind::of("fish"), Some(ShellKind::Fish));
    assert_eq!(ShellKind::of("powershell"), Some(ShellKind::PowerShell));
    assert_eq!(ShellKind::of("Bash"), None);
    assert_eq!(ShellKind::of("elvish"), None);
}

#[test]
fn config_actions_by_flag() {
    assert_eq!(ConfigAction::of(false, true, false), ConfigAction::Reset);
    assert_eq!(ConfigAction::of(true, true, true), ConfigAction::Reset);
    assert_eq!(ConfigAction::of(false, false, true), ConfigAction::Edit);
    assert_eq!(ConfigAction::of(true, false, true), ConfigAction::Edit);
    assert_eq!(ConfigAction::of(true, false, false), ConfigAction::Show);
    assert_eq!(ConfigAction::of(false, false, false), ConfigAction::Show);
}
