//! The progress of the overlay's opening animation, driven by the time that
//! has passed since the overlay appeared.
//!
//! Progress is a fraction between 0 and 1, kept as two integers. It has no
//! part in the selection session: input is accepted at any progress.

use vstd::prelude::*;

verus! {

/// A fraction between 0 and 1.
#[derive(Debug, Clone, Copy, PartialEq, Eq, Structural)]
pub struct Progress {
    pub numerator: u64,
    pub denominator: u64,
}

/// What the caller of a tick does with its timer.
#[derive(Debug, Clone, Copy, PartialEq, Eq, Structural)]
pub enum Tick {
    /// Keep ticking.
    Continue,
    /// The animation is over; stop the timer.
    Stop,
}

/// The state of an animation as a plain value.
pub struct AnimationState {
    pub duration_ms: u64,
    pub progress: Progress,
    pub controls_visible: bool,
}

impl Progress {
    /// The fraction is proper: it lies between 0 and 1.
    pub open spec fn wf(self) -> bool {
        0 < self.denominator && self.numerator <= self.denominator
    }

    pub open spec fn complete(self) -> bool {
        self.numerator == self.denominator
    }

    /// `self <= other`, for two fractions over the same denominator.
    pub open spec fn at_most(self, other: Progress) -> bool {
        self.denominator == other.denominator && self.numerator <= other.numerator
    }
}

/// The denominator that progress over `duration_ms` is counted in.
pub open spec fn scale_of(duration_ms: u64) -> u64 {
    if duration_ms == 0 {
        1
    } else {
        duration_ms
    }
}

impl AnimationState {
    /// An animation of `duration_ms` that has not begun.
    pub open spec fn initial(duration_ms: u64) -> AnimationState {
        AnimationState {
            duration_ms,
            progress: Progress { numerator: 0, denominator: scale_of(duration_ms) },
            controls_visible: false,
        }
    }

    pub open spec fn wf(self) -> bool {
        &&& self.progress.denominator == scale_of(self.duration_ms)
        &&& self.progress.wf()
        &&& self.controls_visible ==> self.progress.complete()
    }

    /// The state after a tick at `elapsed_ms` since the overlay appeared:
    /// progress is the elapsed share of the duration, held at 1 and never
    /// falling; reaching 1 makes the controls visible.
    pub open spec fn after_tick(self, elapsed_ms: u64) -> AnimationState {
        if self.controls_visible {
            self
        } else if elapsed_ms >= self.duration_ms {
            AnimationState {
                progress: Progress {
                    numerator: self.progress.denominator,
                    denominator: self.progress.denominator,
                },
                controls_visible: true,
                ..self
            }
        } else if elapsed_ms > self.progress.numerator {
            AnimationState {
                progress: Progress {
                    numerator: elapsed_ms,
                    denominator: self.progress.denominator,
                },
                ..self
            }
        } else {
            self
        }
    }

    /// What a tick at `elapsed_ms` tells the caller.
    pub open spec fn tick_result(self, elapsed_ms: u64) -> Tick {
        if self.after_tick(elapsed_ms).controls_visible {
            Tick::Stop
        } else {
            Tick::Continue
        }
    }
}

/// The driver of one overlay's animation.
#[derive(Debug, Clone, Copy)]
pub struct AnimationDriver {
    duration_ms: u64,
    progress: Progress,
    controls_visible: bool,
}

impl View for AnimationDriver {
    type V = AnimationState;

    closed spec fn view(&self) -> AnimationState {
        AnimationState {
            duration_ms: self.duration_ms,
            progress: self.progress,
            controls_visible: self.controls_visible,
        }
    }
}

impl AnimationDriver {
    /// A driver for an animation that lasts `duration_ms`.
    pub fn new(duration_ms: u64) -> (driver: Self)
        ensures
            driver@ == AnimationState::initial(duration_ms),
            driver@.wf(),
    {
        AnimationDriver {
            duration_ms,
            progress: Progress {
                numerator: 0,
                denominator: if duration_ms == 0 {
                    1
                } else {
                    duration_ms
                },
            },
            controls_visible: false,
        }
    }

    pub fn duration_ms(&self) -> (d: u64)
        ensures
            d == self@.duration_ms,
    {
        self.duration_ms
    }

    pub fn progress(&self) -> (p: Progress)
        ensures
            p == self@.progress,
    {
        self.progress
    }

    pub fn controls_visible(&self) -> (v: bool)
        ensures
            v == self@.controls_visible,
    {
        self.controls_visible
    }

    /// Advances the animation to `elapsed_ms` since the overlay appeared.
    pub fn tick(&mut self, elapsed_ms: u64) -> (t: Tick)
        ensures
            final(self)@ == old(self)@.after_tick(elapsed_ms),
            t == old(self)@.tick_result(elapsed_ms),
            old(self)@.wf() ==> final(self)@.wf(),
            old(self)@.wf() ==> old(self)@.progress.at_most(final(self)@.progress),
    {
        if self.controls_visible {
            Tick::Stop
        } else if elapsed_ms >= self.duration_ms {
            self.progress = Progress {
                numerator: self.progress.denominator,
                denominator: self.progress.denominator,
            };
            self.controls_visible = true;
            Tick::Stop
        } else {
            if elapsed_ms > self.progress.numerator {
                self.progress = Progress {
                    numerator: elapsed_ms,
                    denominator: self.progress.denominator,
                };
            }
            Tick::Continue
        }
    }
}

/// A tick keeps progress a proper fraction and never lets it fall.
pub proof fn lemma_tick_is_monotonic(s: AnimationState, elapsed_ms: u64)
    requires
        s.wf(),
    ensures
        s.after_tick(elapsed_ms).wf(),
        s.progress.at_most(s.after_tick(elapsed_ms).progress),
        s.after_tick(elapsed_ms).duration_ms == s.duration_ms,
{
}

/// The animation stops, with its controls visible and its progress at 1,
/// exactly when a tick has reached the duration.
pub proof fn lemma_tick_stops_at_duration(s: AnimationState, elapsed_ms: u64)
    requires
        s.wf(),
        !s.controls_visible,
    ensures
        s.tick_result(elapsed_ms) == Tick::Stop <==> elapsed_ms >= s.duration_ms,
        s.after_tick(elapsed_ms).controls_visible <==> elapsed_ms >= s.duration_ms,
        elapsed_ms >= s.duration_ms ==> s.after_tick(elapsed_ms).progress.complete(),
        elapsed_ms < s.duration_ms ==> s.after_tick(elapsed_ms).progress.numerator == (if elapsed_ms
            > s.progress.numerator {
            elapsed_ms
        } else {
            s.progress.numerator
        }),
{
}

/// Once the controls are visible, further ticks change nothing.
pub proof fn lemma_tick_after_stop(s: AnimationState, elapsed_ms: u64)
    requires
        s.controls_visible,
    ensures
        s.after_tick(elapsed_ms) == s,
        s.tick_result(elapsed_ms) == Tick::Stop,
{
}

/// On a fresh animation, a first tick before the end shows the elapsed
/// share of the duration.
pub proof fn lemma_first_tick(duration_ms: u64, elapsed_ms: u64)
    requires
        elapsed_ms < duration_ms,
    ensures
        AnimationState::initial(duration_ms).after_tick(elapsed_ms).progress == (Progress {
            numerator: elapsed_ms,
            denominator: duration_ms,
        }),
{
}

} // verus!
