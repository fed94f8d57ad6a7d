//! Interactive region capture for a Wayland desktop: the region model, the
//! selection session driven by pointer and key events, the sequencing of a
//! capture request, and the plain-value rules around them.

pub mod animation;
pub mod capture;
pub mod cli;
pub mod config;
pub mod error;
pub mod export;
pub mod mode;
pub mod orchestrator;
pub mod parse;
pub mod processing;
pub mod raster;
pub mod region;
pub mod session;
pub mod uri;

pub use animation::{AnimationDriver, AnimationState, Progress, Tick};
pub use capture::{
    create_backend, crop_to_region, CaptureOptions, Screenshot, ScreenshotMetadata, Timestamp,
    WaylandBackend, WindowInfo,
};
pub use cli::{Args, CapturePlan, ConfigAction, ExportPlan, ListTarget, ShellKind};
pub use config::{AnimationConfig, Config, GuiConfig, ShortcutConfig};
pub use error::ScreenshotError;
pub use export::{Encoding, Exporter, FileEncoding};
pub use mode::{CaptureMode, OutputFormat};
pub use orchestrator::{Directive, Orchestrator, OrchestratorState, Report, Stage};
pub use processing::ImageProcessor;
pub use raster::{Raster, RasterView};
pub use region::{Bounds, MonitorGeometry, Point, Region};
pub use session::{Action, InputEvent, Phase, Session, SessionState};
