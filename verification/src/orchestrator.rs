//! The sequencing of one capture: wait out the delay, ask the capture
//! service once, crop what comes back, hand it to the export, and tear the
//! overlay down whatever happened.
//!
//! The orchestrator performs none of this itself. It is told what happened
//! and answers with a [`Directive`]; the caller awaits, captures and exports.

use vstd::prelude::*;

use crate::capture::{cropped_to, CaptureOptions, Screenshot, WaylandBackend};
use crate::error::ScreenshotError;
use crate::mode::{CaptureMode, OutputFormat};
use crate::raster::Raster;
use crate::region::out_of_bounds_text;

verus! {

/// How far a capture has come.
#[derive(Debug, Clone, Copy, PartialEq, Eq, Structural)]
pub enum Stage {
    Ready,
    Delaying,
    Capturing,
    Exporting,
    Finished,
}

/// What the caller reports to the orchestrator, by kind.
#[derive(Debug, Clone, Copy, PartialEq, Eq, Structural)]
pub enum Report {
    /// The session was committed.
    Started,
    /// The delay has passed.
    DelayElapsed,
    /// The capture service answered; `usable` tells whether it returned a
    /// raster on which the requested region lies.
    Captured { usable: bool },
    /// The export ended, well or not.
    Exported,
}

/// What the caller must do next.
#[derive(Debug)]
pub enum Directive {
    /// The report did not fit the stage; nothing is to be done.
    Ignore,
    /// Wait this many seconds, then report that the delay has passed.
    Wait(u64),
    /// Ask the capture service for a raster.
    RequestCapture { interactive: bool },
    /// Hand this capture to the export.
    Export(Screenshot),
    /// Close the overlay; an error, if there is one, is to be shown first.
    Teardown(Option<ScreenshotError>),
}

impl Stage {
    /// The stage that follows a report. `delayed` tells whether the options
    /// hold a delay.
    pub open spec fn after(self, delayed: bool, report: Report) -> Stage {
        match (self, report) {
            (Stage::Ready, Report::Started) => if delayed {
                Stage::Delaying
            } else {
                Stage::Capturing
            },
            (Stage::Delaying, Report::DelayElapsed) => Stage::Capturing,
            (Stage::Capturing, Report::Captured { usable }) => if usable {
                Stage::Exporting
            } else {
                Stage::Finished
            },
            (Stage::Exporting, Report::Exported) => Stage::Finished,
            _ => self,
        }
    }

    /// Whether a report makes the orchestrator ask for a capture.
    pub open spec fn requests_capture(self, delayed: bool, report: Report) -> bool {
        self.after(delayed, report) == Stage::Capturing && self != Stage::Capturing
    }

    /// Whether a report makes the orchestrator tear the overlay down.
    pub open spec fn tears_down(self, delayed: bool, report: Report) -> bool {
        self.after(delayed, report) == Stage::Finished && self != Stage::Finished
    }

    /// The stage after a sequence of reports.
    pub open spec fn run(self, delayed: bool, reports: Seq<Report>) -> Stage
        decreases reports.len(),
    {
        if reports.len() == 0 {
            self
        } else {
            self.after(delayed, reports[0]).run(delayed, reports.drop_first())
        }
    }

    /// How often a sequence of reports makes the orchestrator ask for a
    /// capture.
    pub open spec fn capture_requests(self, delayed: bool, reports: Seq<Report>) -> nat
        decreases reports.len(),
    {
        if reports.len() == 0 {
            0
        } else {
            let first: nat = if self.requests_capture(delayed, reports[0]) {
                1
            } else {
                0
            };
            first + self.after(delayed, reports[0]).capture_requests(
                delayed,
                reports.drop_first(),
            )
        }
    }

    /// How often a sequence of reports makes the orchestrator tear the
    /// overlay down.
    pub open spec fn teardowns(self, delayed: bool, reports: Seq<Report>) -> nat
        decreases reports.len(),
    {
        if reports.len() == 0 {
            0
        } else {
            let first: nat = if self.tears_down(delayed, reports[0]) {
                1
            } else {
                0
            };
            first + self.after(delayed, reports[0]).teardowns(delayed, reports.drop_first())
        }
    }

    /// The distance of a stage from the end of the sequence.
    pub open spec fn rank(self) -> nat {
        match self {
            Stage::Ready => 4,
            Stage::Delaying => 3,
            Stage::Capturing => 2,
            Stage::Exporting => 1,
            Stage::Finished => 0,
        }
    }
}

/// The state of an orchestrator as a plain value.
pub struct OrchestratorState {
    pub mode: CaptureMode,
    pub options: CaptureOptions,
    pub stage: Stage,
}

/// The orchestrator of one committed capture.
#[derive(Debug, Clone, Copy)]
pub struct Orchestrator {
    backend: WaylandBackend,
    mode: CaptureMode,
    options: CaptureOptions,
    stage: Stage,
}

impl View for Orchestrator {
    type V = OrchestratorState;

    closed spec fn view(&self) -> OrchestratorState {
        OrchestratorState { mode: self.mode, options: self.options, stage: self.stage }
    }
}

impl OrchestratorState {
    pub open spec fn delayed(self) -> bool {
        self.options.delay is Some
    }

    /// The same state at another stage.
    pub open spec fn at(self, stage: Stage) -> OrchestratorState {
        OrchestratorState { stage, ..self }
    }
}

impl Orchestrator {
    /// An orchestrator for a capture in `mode` with `options`, not yet
    /// started.
    pub fn new(backend: WaylandBackend, mode: CaptureMode, options: CaptureOptions) -> (o: Self)
        ensures
            o@ == (OrchestratorState { mode, options, stage: Stage::Ready }),
    {
        Orchestrator { backend, mode, options, stage: Stage::Ready }
    }

    pub fn stage(&self) -> (s: Stage)
        ensures
            s == self@.stage,
    {
        self.stage
    }

    pub fn mode(&self) -> (m: CaptureMode)
        ensures
            m == self@.mode,
    {
        self.mode
    }

    pub fn options(&self) -> (o: CaptureOptions)
        ensures
            o == self@.options,
    {
        self.options
    }

    /// The session was committed: wait out the delay where the options hold
    /// one, else ask for the capture at once.
    pub fn start(&mut self) -> (d: Directive)
        ensures
            final(self)@ == old(self)@.at(
                old(self)@.stage.after(old(self)@.delayed(), Report::Started),
            ),
            old(self)@.stage != Stage::Ready ==> d is Ignore,
            old(self)@.stage == Stage::Ready ==> match old(self)@.options.delay {
                Some(seconds) => d matches Directive::Wait(s) && s == seconds,
                None => d matches Directive::RequestCapture { interactive } && interactive
                    == old(self)@.mode.interactive(),
            },
    {
        match self.stage {
            Stage::Ready => match self.options.delay {
                Some(seconds) => {
                    self.stage = Stage::Delaying;
                    Directive::Wait(seconds)
                },
                None => {
                    self.stage = Stage::Capturing;
                    Directive::RequestCapture {
                        interactive: self.backend.interactive_for(self.mode),
                    }
                },
            },
            _ => Directive::Ignore,
        }
    }

    /// The delay has passed: ask for the capture.
    pub fn delay_elapsed(&mut self) -> (d: Directive)
        ensures
            final(self)@ == old(self)@.at(
                old(self)@.stage.after(old(self)@.delayed(), Report::DelayElapsed),
            ),
            old(self)@.stage != Stage::Delaying ==> d is Ignore,
            old(self)@.stage == Stage::Delaying ==> (d matches Directive::RequestCapture {
                interactive,
            } && interactive == old(self)@.mode.interactive()),
    {
        match self.stage {
            Stage::Delaying => {
                self.stage = Stage::Capturing;
                Directive::RequestCapture { interactive: self.backend.interactive_for(self.mode) }
            },
            _ => Directive::Ignore,
        }
    }

    /// Whether the answer of the capture service can be exported: it is a
    /// raster, and the requested region lies on it.
    pub open spec fn usable(self, outcome: Result<Raster, ScreenshotError>) -> bool {
        outcome matches Ok(data) && cropped_to(data@, self@.options.region) is Some
    }

    /// The capture service answered. A raster is cropped to the requested
    /// region and handed on for export; a failure of the service, or a
    /// region that leaves the raster, ends the capture with that error.
    pub fn captured(&mut self, outcome: Result<Raster, ScreenshotError>) -> (d: Directive)
        ensures
            final(self)@ == old(self)@.at(
                old(self)@.stage.after(
                    old(self)@.delayed(),
                    Report::Captured { usable: old(self).usable(outcome) },
                ),
            ),
            old(self)@.stage != Stage::Capturing ==> d is Ignore,
            old(self)@.stage == Stage::Capturing ==> match outcome {
                Ok(data) => match cropped_to(data@, old(self)@.options.region) {
                    Some(view) => d matches Directive::Export(shot) && shot.data@ == view
                        && shot.metadata.mode == old(self)@.mode && shot.metadata.format
                        == OutputFormat::Png && shot.metadata.width == view.width
                        && shot.metadata.height == view.height
                        && shot.metadata.file_size is None,
                    None => d matches Directive::Teardown(Some(e)) && e
                        matches ScreenshotError::InvalidRegion(text) && text@
                        == out_of_bounds_text(),
                },
                Err(e) => d matches Directive::Teardown(Some(shown)) && shown == e,
            },
    {
        match self.stage {
            Stage::Capturing => match outcome {
                Ok(data) => match self.backend.finish(data, self.mode, &self.options) {
                    Ok(shot) => {
                        self.stage = Stage::Exporting;
                        Directive::Export(shot)
                    },
                    Err(e) => {
                        self.stage = Stage::Finished;
                        Directive::Teardown(Some(e))
                    },
                },
                Err(e) => {
                    self.stage = Stage::Finished;
                    Directive::Teardown(Some(e))
                },
            },
            _ => Directive::Ignore,
        }
    }

    /// The export ended: tear the overlay down and show its error, if it
    /// failed.
    pub fn exported(&mut self, outcome: Result<(), ScreenshotError>) -> (d: Directive)
        ensures
            final(self)@ == old(self)@.at(
                old(self)@.stage.after(old(self)@.delayed(), Report::Exported),
            ),
            old(self)@.stage != Stage::Exporting ==> d is Ignore,
            old(self)@.stage == Stage::Exporting ==> match outcome {
                Ok(_) => d matches Directive::Teardown(None),
                Err(e) => d matches Directive::Teardown(Some(shown)) && shown == e,
            },
    {
        match self.stage {
            Stage::Exporting => {
                self.stage = Stage::Finished;
                match outcome {
                    Ok(_) => Directive::Teardown(None),
                    Err(e) => Directive::Teardown(Some(e)),
                }
            },
            _ => Directive::Ignore,
        }
    }
}

/// A report never takes a capture back to an earlier stage.
pub proof fn lemma_stage_never_goes_back(stage: Stage, delayed: bool, report: Report)
    ensures
        stage.after(delayed, report).rank() <= stage.rank(),
        stage.requests_capture(delayed, report) ==> stage.rank() > 2,
        stage.tears_down(delayed, report) ==> stage.rank() > 0,
{
}

/// A finished capture stays finished: no report asks for anything more.
pub proof fn lemma_finished_is_terminal(delayed: bool, reports: Seq<Report>)
    ensures
        Stage::Finished.run(delayed, reports) == Stage::Finished,
        Stage::Finished.capture_requests(delayed, reports) == 0,
        Stage::Finished.teardowns(delayed, reports) == 0,
    decreases reports.len(),
{
    if reports.len() > 0 {
        lemma_finished_is_terminal(delayed, reports.drop_first());
    }
}

/// Whatever is reported, and in whatever order, the capture service is
/// asked at most once, and not at all once the capture is under way.
pub proof fn lemma_capture_requested_at_most_once(
    stage: Stage,
    delayed: bool,
    reports: Seq<Report>,
)
    ensures
        stage.capture_requests(delayed, reports) <= 1,
        stage.rank() <= 2 ==> stage.capture_requests(delayed, reports) == 0,
    decreases reports.len(),
{
    if reports.len() > 0 {
        lemma_stage_never_goes_back(stage, delayed, reports[0]);
        lemma_capture_requested_at_most_once(
            stage.after(delayed, reports[0]),
            delayed,
            reports.drop_first(),
        );
    }
}

/// The overlay is torn down at most once, and exactly once on every run
/// that ends finished.
pub proof fn lemma_teardown_exactly_when_finished(
    stage: Stage,
    delayed: bool,
    reports: Seq<Report>,
)
    requires
        stage != Stage::Finished,
    ensures
        stage.teardowns(delayed, reports) == (if stage.run(delayed, reports) == Stage::Finished {
            1nat
        } else {
            0nat
        }),
    decreases reports.len(),
{
    if reports.len() > 0 {
        let next = stage.after(delayed, reports[0]);
        if next == Stage::Finished {
            lemma_finished_is_terminal(delayed, reports.drop_first());
        } else {
            lemma_teardown_exactly_when_finished(next, delayed, reports.drop_first());
        }
    }
}

/// A capture that cannot be used ends the run at once: the failure is
/// torn down, never left pending.
pub proof fn lemma_failure_tears_down(delayed: bool)
    ensures
        Stage::Capturing.tears_down(delayed, Report::Captured { usable: false }),
        Stage::Exporting.tears_down(delayed, Report::Exported),
        !Stage::Capturing.tears_down(delayed, Report::Captured { usable: true }),
{
}

} // verus!
