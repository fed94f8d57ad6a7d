//! The selection session: one overlay's drag lifecycle, from the first
//! pointer press to a committed region or a cancellation.
//!
//! The session decides; it performs nothing. Every input yields the next
//! state and an [`Action`] for the caller to carry out, so a capture is
//! requested exactly where an action says so.

use vstd::prelude::*;

use crate::region::{MonitorGeometry, Point, Region};

verus! {

/// Where a session stands.
#[derive(Debug, Clone, Copy, PartialEq, Eq, Structural)]
pub enum Phase {
    Idle,
    Dragging,
    Previewing,
    Committed,
    Cancelled,
}

/// One input from the overlay: pointer positions are overlay-local pixels.
#[derive(Debug, Clone, Copy, PartialEq, Eq, Structural)]
pub enum InputEvent {
    Press(Point),
    Move(Point),
    Release(Point),
    Confirm,
    Cancel,
}

/// What the caller must do after an input.
#[derive(Debug, Clone, Copy, PartialEq, Eq, Structural)]
pub enum Action {
    /// Nothing changed.
    Ignore,
    /// The preview changed; draw it again.
    Redraw,
    /// The selection was committed: request a capture of this region, given
    /// in global coordinates.
    Capture(Region),
    /// The session was cancelled: tear the overlay down.
    Close,
}

/// The state of a session as a plain value.
pub struct SessionState {
    pub monitor: MonitorGeometry,
    pub phase: Phase,
    pub drag_anchor: Option<Point>,
    pub current_selection: Option<Region>,
    pub dragging: bool,
    pub committed_region: Option<Region>,
}

impl SessionState {
    /// The state of a fresh session on `monitor`.
    pub open spec fn initial(monitor: MonitorGeometry) -> SessionState {
        SessionState {
            monitor,
            phase: Phase::Idle,
            drag_anchor: None,
            current_selection: None,
            dragging: false,
            committed_region: None,
        }
    }

    /// The fields agree with the phase.
    pub open spec fn wf(self) -> bool {
        &&& self.dragging ==> self.drag_anchor is Some
        &&& match self.phase {
            Phase::Idle => {
                &&& self.drag_anchor is None
                &&& self.current_selection is None
                &&& !self.dragging
                &&& self.committed_region is None
            },
            Phase::Dragging => {
                &&& self.drag_anchor is Some
                &&& self.dragging
                &&& self.committed_region is None
            },
            Phase::Previewing => {
                &&& self.drag_anchor is None
                &&& self.current_selection is Some
                &&& !self.dragging
                &&& self.committed_region is None
            },
            Phase::Committed => {
                &&& self.drag_anchor is None
                &&& !self.dragging
                &&& self.current_selection matches Some(local)
                &&& local.translatable(self.monitor)
                &&& self.committed_region == Some(local.translated(self.monitor))
            },
            Phase::Cancelled => {
                &&& self.drag_anchor is None
                &&& self.current_selection is None
                &&& !self.dragging
                &&& self.committed_region is None
            },
        }
    }

    /// Neither committed nor cancelled.
    pub open spec fn live(self) -> bool {
        self.phase != Phase::Committed && self.phase != Phase::Cancelled
    }

    /// The preview spanned by the anchor and `p`, while a drag is under way.
    pub open spec fn preview(self, p: Point) -> Option<Region> {
        match self.drag_anchor {
            Some(a) if self.phase == Phase::Dragging => Some(Region::spanning(a, p).normalized()),
            _ => None,
        }
    }

    /// The global region a confirm would commit, when it would commit one.
    pub open spec fn committable(self) -> Option<Region> {
        match self.current_selection {
            Some(local) if self.phase == Phase::Previewing && local.translatable(self.monitor) =>
                Some(local.translated(self.monitor)),
            _ => None,
        }
    }

    pub open spec fn after_press(self, p: Point) -> SessionState {
        if self.live() {
            SessionState {
                phase: Phase::Dragging,
                drag_anchor: Some(p),
                current_selection: None,
                dragging: true,
                ..self
            }
        } else {
            self
        }
    }

    pub open spec fn after_move(self, p: Point) -> SessionState {
        match self.preview(p) {
            Some(r) => SessionState { current_selection: Some(r), ..self },
            None => self,
        }
    }

    pub open spec fn after_release(self, p: Point) -> SessionState {
        match self.preview(p) {
            Some(r) => SessionState {
                phase: Phase::Previewing,
                drag_anchor: None,
                current_selection: Some(r),
                dragging: false,
                ..self
            },
            None => self,
        }
    }

    pub open spec fn after_confirm(self) -> SessionState {
        match self.committable() {
            Some(global) => SessionState {
                phase: Phase::Committed,
                committed_region: Some(global),
                ..self
            },
            None => self,
        }
    }

    pub open spec fn after_cancel(self) -> SessionState {
        if self.live() {
            SessionState {
                phase: Phase::Cancelled,
                drag_anchor: None,
                current_selection: None,
                dragging: false,
                ..self
            }
        } else {
            self
        }
    }

    /// The state that follows `event`.
    pub open spec fn step(self, event: InputEvent) -> SessionState {
        match event {
            InputEvent::Press(p) => self.after_press(p),
            InputEvent::Move(p) => self.after_move(p),
            InputEvent::Release(p) => self.after_release(p),
            InputEvent::Confirm => self.after_confirm(),
            InputEvent::Cancel => self.after_cancel(),
        }
    }

    /// What the caller is asked to do on `event`.
    pub open spec fn action(self, event: InputEvent) -> Action {
        match event {
            InputEvent::Press(_) => if self.live() {
                Action::Redraw
            } else {
                Action::Ignore
            },
            InputEvent::Move(p) => if self.preview(p) is Some {
                Action::Redraw
            } else {
                Action::Ignore
            },
            InputEvent::Release(p) => if self.preview(p) is Some {
                Action::Redraw
            } else {
                Action::Ignore
            },
            InputEvent::Confirm => match self.committable() {
                Some(global) => Action::Capture(global),
                None => Action::Ignore,
            },
            InputEvent::Cancel => if self.live() {
                Action::Close
            } else {
                Action::Ignore
            },
        }
    }

    /// The state after a whole sequence of events.
    pub open spec fn run(self, events: Seq<InputEvent>) -> SessionState
        decreases events.len(),
    {
        if events.len() == 0 {
            self
        } else {
            self.step(events[0]).run(events.drop_first())
        }
    }

    /// How many capture requests a sequence of events gives rise to.
    pub open spec fn captures(self, events: Seq<InputEvent>) -> nat
        decreases events.len(),
    {
        if events.len() == 0 {
            0
        } else {
            let first: nat = if self.action(events[0]) is Capture {
                1
            } else {
                0
            };
            first + self.step(events[0]).captures(events.drop_first())
        }
    }
}

/// The selection session of one overlay window.
#[derive(Debug, Clone, Copy)]
pub struct Session {
    monitor: MonitorGeometry,
    phase: Phase,
    drag_anchor: Option<Point>,
    current_selection: Option<Region>,
    dragging: bool,
    committed_region: Option<Region>,
}

impl View for Session {
    type V = SessionState;

    closed spec fn view(&self) -> SessionState {
        SessionState {
            monitor: self.monitor,
            phase: self.phase,
            drag_anchor: self.drag_anchor,
            current_selection: self.current_selection,
            dragging: self.dragging,
            committed_region: self.committed_region,
        }
    }
}

impl Session {
    /// A fresh session on the monitor whose geometry is given.
    pub fn new(monitor: MonitorGeometry) -> (s: Session)
        ensures
            s@ == SessionState::initial(monitor),
            s@.wf(),
    {
        Session {
            monitor,
            phase: Phase::Idle,
            drag_anchor: None,
            current_selection: None,
            dragging: false,
            committed_region: None,
        }
    }

    pub fn monitor(&self) -> (m: MonitorGeometry)
        ensures
            m == self@.monitor,
    {
        self.monitor
    }

    pub fn phase(&self) -> (p: Phase)
        ensures
            p == self@.phase,
    {
        self.phase
    }

    pub fn drag_anchor(&self) -> (a: Option<Point>)
        ensures
            a == self@.drag_anchor,
    {
        self.drag_anchor
    }

    pub fn current_selection(&self) -> (r: Option<Region>)
        ensures
            r == self@.current_selection,
    {
        self.current_selection
    }

    pub fn is_dragging(&self) -> (d: bool)
        ensures
            d == self@.dragging,
    {
        self.dragging
    }

    pub fn committed_region(&self) -> (r: Option<Region>)
        ensures
            r == self@.committed_region,
    {
        self.committed_region
    }

    fn is_live(&self) -> (b: bool)
        ensures
            b == self@.live(),
    {
        match self.phase {
            Phase::Committed => false,
            Phase::Cancelled => false,
            _ => true,
        }
    }

    fn preview_at(&self, p: Point) -> (r: Option<Region>)
        ensures
            r == self@.preview(p),
    {
        match self.phase {
            Phase::Dragging => match self.drag_anchor {
                Some(a) => Some(Region::from_drag(a, p).normalize()),
                None => None,
            },
            _ => None,
        }
    }

    /// The pointer went down at `p`: a drag starts there and any earlier
    /// preview is dropped. Ignored once the session is committed or
    /// cancelled.
    pub fn press(&mut self, p: Point) -> (action: Action)
        ensures
            final(self)@ == old(self)@.after_press(p),
            action == old(self)@.action(InputEvent::Press(p)),
            old(self)@.wf() ==> final(self)@.wf(),
    {
        if self.is_live() {
            *self = Session {
                monitor: self.monitor,
                phase: Phase::Dragging,
                drag_anchor: Some(p),
                current_selection: None,
                dragging: true,
                committed_region: self.committed_region,
            };
            Action::Redraw
        } else {
            Action::Ignore
        }
    }

    /// The pointer moved to `p`: during a drag the preview becomes the
    /// normalized rectangle between the anchor and `p`. Ignored otherwise.
    pub fn move_to(&mut self, p: Point) -> (action: Action)
        ensures
            final(self)@ == old(self)@.after_move(p),
            action == old(self)@.action(InputEvent::Move(p)),
            old(self)@.wf() ==> final(self)@.wf(),
    {
        match self.preview_at(p) {
            Some(r) => {
                self.current_selection = Some(r);
                Action::Redraw
            },
            None => Action::Ignore,
        }
    }

    /// The pointer was released at `p`: the drag ends and its rectangle,
    /// empty or not, becomes the selection. Ignored when no drag is under way.
    pub fn release(&mut self, p: Point) -> (action: Action)
        ensures
            final(self)@ == old(self)@.after_release(p),
            action == old(self)@.action(InputEvent::Release(p)),
            old(self)@.wf() ==> final(self)@.wf(),
    {
        match self.preview_at(p) {
            Some(r) => {
                *self = Session {
                    monitor: self.monitor,
                    phase: Phase::Previewing,
                    drag_anchor: None,
                    current_selection: Some(r),
                    dragging: false,
                    committed_region: self.committed_region,
                };
                Action::Redraw
            },
            None => Action::Ignore,
        }
    }

    /// The confirm key: a finished selection is moved into global space and
    /// committed, and the caller is asked to capture it. Ignored in every
    /// other state, and where the global position is not representable.
    pub fn confirm(&mut self) -> (action: Action)
        ensures
            final(self)@ == old(self)@.after_confirm(),
            action == old(self)@.action(InputEvent::Confirm),
            old(self)@.wf() ==> final(self)@.wf(),
    {
        match self.phase {
            Phase::Previewing => match self.current_selection {
                Some(local) => match local.translate_to_global(&self.monitor) {
                    Some(global) => {
                        self.phase = Phase::Committed;
                        self.committed_region = Some(global);
                        Action::Capture(global)
                    },
                    None => Action::Ignore,
                },
                None => Action::Ignore,
            },
            _ => Action::Ignore,
        }
    }

    /// The cancel key: before a commit the session ends and drops its
    /// pending selection. Without effect afterwards.
    pub fn cancel(&mut self) -> (action: Action)
        ensures
            final(self)@ == old(self)@.after_cancel(),
            action == old(self)@.action(InputEvent::Cancel),
            old(self)@.wf() ==> final(self)@.wf(),
    {
        if self.is_live() {
            *self = Session {
                monitor: self.monitor,
                phase: Phase::Cancelled,
                drag_anchor: None,
                current_selection: None,
                dragging: false,
                committed_region: self.committed_region,
            };
            Action::Close
        } else {
            Action::Ignore
        }
    }

    /// Feeds one input to the session.
    pub fn handle(&mut self, event: InputEvent) -> (action: Action)
        ensures
            final(self)@ == old(self)@.step(event),
            action == old(self)@.action(event),
            old(self)@.wf() ==> final(self)@.wf(),
    {
        match event {
            InputEvent::Press(p) => self.press(p),
            InputEvent::Move(p) => self.move_to(p),
            InputEvent::Release(p) => self.release(p),
            InputEvent::Confirm => self.confirm(),
            InputEvent::Cancel => self.cancel(),
        }
    }
}

/// Every input keeps the fields in agreement with the phase.
pub proof fn lemma_step_keeps_wf(s: SessionState, event: InputEvent)
    requires
        s.wf(),
    ensures
        s.step(event).wf(),
        s.step(event).monitor == s.monitor,
{
}

/// A capture is requested only by a confirm in `Previewing`, and that
/// confirm commits the session.
pub proof fn lemma_capture_means_commit(s: SessionState, event: InputEvent)
    requires
        s.action(event) is Capture,
    ensures
        event == InputEvent::Confirm,
        s.phase == Phase::Previewing,
        s.step(event).phase == Phase::Committed,
        s.step(event).committed_region == Some(s.action(event)->Capture_0),
{
}

/// Once set, the committed region never changes.
pub proof fn lemma_commit_is_final(s: SessionState, event: InputEvent)
    requires
        s.wf(),
        s.committed_region is Some,
    ensures
        s.step(event) == s,
        s.action(event) == Action::Ignore,
{
}

/// A sequence of inputs without a confirm requests no capture, whatever the
/// pointer did.
pub proof fn lemma_no_confirm_no_capture(s: SessionState, events: Seq<InputEvent>)
    requires
        forall|i: int| 0 <= i < events.len() ==> events[i] != InputEvent::Confirm,
    ensures
        s.captures(events) == 0,
        s.run(events).committed_region == s.committed_region,
    decreases events.len(),
{
    if events.len() > 0 {
        let rest = events.drop_first();
        assert forall|i: int| 0 <= i < rest.len() implies rest[i] != InputEvent::Confirm by {
            assert(rest[i] == events[i + 1]);
        }
        lemma_no_confirm_no_capture(s.step(events[0]), rest);
    }
}

/// A committed session requests nothing more and stays as it is: further
/// confirms, and a cancel, are without effect.
pub proof fn lemma_committed_is_terminal(s: SessionState, events: Seq<InputEvent>)
    requires
        s.phase == Phase::Committed,
    ensures
        s.captures(events) == 0,
        s.run(events) == s,
    decreases events.len(),
{
    if events.len() > 0 {
        lemma_committed_is_terminal(s.step(events[0]), events.drop_first());
    }
}

/// A cancelled session requests nothing and stays as it is.
pub proof fn lemma_cancelled_is_terminal(s: SessionState, events: Seq<InputEvent>)
    requires
        s.phase == Phase::Cancelled,
    ensures
        s.captures(events) == 0,
        s.run(events) == s,
    decreases events.len(),
{
    if events.len() > 0 {
        lemma_cancelled_is_terminal(s.step(events[0]), events.drop_first());
    }
}

/// No sequence of inputs requests more than one capture in a session.
pub proof fn lemma_at_most_one_capture(s: SessionState, events: Seq<InputEvent>)
    ensures
        s.captures(events) <= 1,
    decreases events.len(),
{
    if events.len() > 0 {
        let rest = events.drop_first();
        if s.action(events[0]) is Capture {
            lemma_capture_means_commit(s, events[0]);
            lemma_committed_is_terminal(s.step(events[0]), rest);
        } else {
            lemma_at_most_one_capture(s.step(events[0]), rest);
        }
    }
}

/// Press, release, confirm on a fresh session requests exactly one capture,
/// of the dragged rectangle moved by the monitor's offset; whatever follows
/// requests none.
pub proof fn lemma_press_release_confirm_captures_once(
    monitor: MonitorGeometry,
    a: Point,
    b: Point,
    later: Seq<InputEvent>,
)
    requires
        Region::spanning(a, b).normalized().translatable(monitor),
    ensures
        ({
            let drag = seq![InputEvent::Press(a), InputEvent::Release(b), InputEvent::Confirm];
            let start = SessionState::initial(monitor);
            &&& start.captures(drag) == 1
            &&& start.captures(drag + later) == 1
            &&& start.run(drag).phase == Phase::Committed
            &&& start.run(drag).committed_region == Some(
                Region::spanning(a, b).normalized().translated(monitor),
            )
            &&& start.run(drag + later) == start.run(drag)
        }),
{
    let drag = seq![InputEvent::Press(a), InputEvent::Release(b), InputEvent::Confirm];
    let start = SessionState::initial(monitor);
    let s1 = start.step(InputEvent::Press(a));
    let s2 = s1.step(InputEvent::Release(b));
    let s3 = s2.step(InputEvent::Confirm);
    assert(s2.phase == Phase::Previewing);
    assert(s3.phase == Phase::Committed);
    lemma_run_concat(start, drag, later);
    lemma_run_unfold3(start, InputEvent::Press(a), InputEvent::Release(b), InputEvent::Confirm);
    lemma_committed_is_terminal(s3, later);
}

/// Running a concatenation is running its parts in turn, and the captures
/// add up.
pub proof fn lemma_run_concat(s: SessionState, first: Seq<InputEvent>, second: Seq<InputEvent>)
    ensures
        s.run(first + second) == s.run(first).run(second),
        s.captures(first + second) == s.captures(first) + s.run(first).captures(second),
    decreases first.len(),
{
    if first.len() == 0 {
        assert(first + second =~= second);
    } else {
        assert((first + second).drop_first() =~= first.drop_first() + second);
        assert((first + second)[0] == first[0]);
        lemma_run_concat(s.step(first[0]), first.drop_first(), second);
    }
}

proof fn lemma_run_unfold3(s: SessionState, e0: InputEvent, e1: InputEvent, e2: InputEvent)
    ensures
        s.run(seq![e0, e1, e2]) == s.step(e0).step(e1).step(e2),
        s.captures(seq![e0, e1, e2]) == (if s.action(e0) is Capture {
            1nat
        } else {
            0nat
        }) + (if s.step(e0).action(e1) is Capture {
            1nat
        } else {
            0nat
        }) + (if s.step(e0).step(e1).action(e2) is Capture {
            1nat
        } else {
            0nat
        }),
{
    let all = seq![e0, e1, e2];
    let tail2 = seq![e1, e2];
    let tail1 = seq![e2];
    assert(all.drop_first() =~= tail2);
    assert(tail2.drop_first() =~= tail1);
    assert(tail1.drop_first() =~= Seq::<InputEvent>::empty());
    reveal_with_fuel(SessionState::run, 4);
    reveal_with_fuel(SessionState::captures, 4);
}

/// A cancel before any commit ends the session with nothing pending, and no
/// later input requests a capture.
pub proof fn lemma_cancel_before_commit(s: SessionState, later: Seq<InputEvent>)
    requires
        s.phase != Phase::Committed,
    ensures
        s.action(InputEvent::Cancel) !is Capture,
        s.step(InputEvent::Cancel).phase == Phase::Cancelled,
        s.wf() ==> s.step(InputEvent::Cancel).drag_anchor is None,
        s.wf() ==> s.step(InputEvent::Cancel).current_selection is None,
        s.wf() ==> !s.step(InputEvent::Cancel).dragging,
        s.wf() ==> s.step(InputEvent::Cancel).committed_region is None,
        s.step(InputEvent::Cancel).captures(later) == 0,
        s.step(InputEvent::Cancel).run(later) == s.step(InputEvent::Cancel),
{
    lemma_cancelled_is_terminal(s.step(InputEvent::Cancel), later);
}

/// A sequence of inputs in which a cancel comes before every confirm
/// requests no capture.
pub proof fn lemma_cancel_first_no_capture(
    s: SessionState,
    before: Seq<InputEvent>,
    later: Seq<InputEvent>,
)
    requires
        s.phase != Phase::Committed,
        forall|i: int| 0 <= i < before.len() ==> before[i] != InputEvent::Confirm,
    ensures
        s.captures(before + seq![InputEvent::Cancel] + later) == 0,
        s.run(before + seq![InputEvent::Cancel] + later).phase == Phase::Cancelled,
{
    let mid = s.run(before);
    lemma_no_confirm_no_capture(s, before);
    lemma_no_confirm_keeps_uncommitted(s, before);
    lemma_run_concat(s, before, seq![InputEvent::Cancel] + later);
    assert(before + seq![InputEvent::Cancel] + later =~= before + (seq![InputEvent::Cancel]
        + later));
    let tail = seq![InputEvent::Cancel] + later;
    assert(tail.drop_first() =~= later);
    assert(tail[0] == InputEvent::Cancel);
    lemma_cancel_before_commit(mid, later);
}

/// Without a confirm an uncommitted session stays uncommitted.
pub proof fn lemma_no_confirm_keeps_uncommitted(s: SessionState, events: Seq<InputEvent>)
    requires
        s.phase != Phase::Committed,
        forall|i: int| 0 <= i < events.len() ==> events[i] != InputEvent::Confirm,
    ensures
        s.run(events).phase != Phase::Committed,
    decreases events.len(),
{
    if events.len() > 0 {
        let rest = events.drop_first();
        assert forall|i: int| 0 <= i < rest.len() implies rest[i] != InputEvent::Confirm by {
            assert(rest[i] == events[i + 1]);
        }
        lemma_no_confirm_keeps_uncommitted(s.step(events[0]), rest);
    }
}

/// Every state reached from a fresh session is well-formed.
pub proof fn lemma_run_keeps_wf(s: SessionState, events: Seq<InputEvent>)
    requires
        s.wf(),
    ensures
        s.run(events).wf(),
        s.run(events).monitor == s.monitor,
    decreases events.len(),
{
    if events.len() > 0 {
        lemma_step_keeps_wf(s, events[0]);
        lemma_run_keeps_wf(s.step(events[0]), events.drop_first());
    }
}

} // verus!
