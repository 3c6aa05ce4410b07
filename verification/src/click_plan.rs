//! Carrying out an autoplay plan's steps, as a state machine: the caller
//! performs each [`ClickAction`] (sleeping, checking that the response is
//! still in scope, locating the game canvas, dispatching a click) and
//! reports its outcome as a [`ClickEvent`]. A click is dispatched at most
//! [`CLICK_RETRY_MAX`] times; the plan succeeds only when every click
//! went through.
use vstd::prelude::*;

verus! {

/// Dispatch attempts per click.
pub const CLICK_RETRY_MAX: u32 = 3;

/// Pause before another dispatch attempt.
pub const CLICK_RETRY_GAP_MS: u64 = 100;

/// One step of a plan; where a click lands is the caller's business.
#[derive(Debug, Clone, Copy, PartialEq, Eq, Structural)]
pub enum PlanStep {
    Sleep { duration_ms: u32 },
    Click,
}

/// How a dispatch attempt went.
#[derive(Debug, Clone, Copy, PartialEq, Eq, Structural)]
pub enum DispatchOutcome {
    /// The click was delivered.
    Clicked,
    /// No page to click on.
    NoPage,
    /// The page could not be focused.
    FocusFailed,
    /// Delivering the click failed.
    ClickFailed,
}

/// The outcome of the last action.
#[derive(Debug, Clone, Copy, PartialEq, Eq, Structural)]
pub enum ClickEvent {
    /// The response's click scope is still active.
    Scope(bool),
    /// The canvas was found (`Some`), with the click point inside it or
    /// not; `None` when no canvas was found.
    Canvas(Option<bool>),
    Dispatched(DispatchOutcome),
}

/// What the caller does next.
#[derive(Debug, Clone, Copy, PartialEq, Eq, Structural)]
pub enum ClickAction {
    /// Sleep, then check the click scope.
    SleepThenCheckScope { ms: u64 },
    /// Check the click scope.
    CheckScope,
    /// Locate the canvas and the point of click `step`.
    ResolveCanvas { step: usize },
    /// Focus the page and click (attempts count from 0).
    Dispatch { step: usize, attempt: u32 },
    /// Pause, then check the click scope.
    PauseThenCheckScope { ms: u64 },
    /// Every step went through.
    Succeeded,
    /// The plan was abandoned.
    Failed,
}

/// Where the current step stands.
#[derive(Debug, Clone, Copy, PartialEq, Eq, Structural)]
pub enum ClickPhase {
    SleepScope,
    ClickScope,
    Canvas,
    Dispatch { attempt: u32 },
    RetryScope { attempt: u32 },
    Finished,
}

/// A plan being carried out: its steps, whether sleeps are skipped (on a
/// retry of the whole plan), the current step and its phase.
#[derive(Debug)]
pub struct ClickRun {
    pub steps: Vec<PlanStep>,
    pub skip_sleeps: bool,
    pub index: usize,
    pub phase: ClickPhase,
}

/// Entering step `i`: a sleep is slept (or skipped), a click starts with a
/// scope check; past the last step the plan has succeeded.
pub open spec fn enter(steps: Seq<PlanStep>, skip_sleeps: bool, i: int) -> (int, ClickPhase, ClickAction)
    decreases steps.len() - i,
{
    if i < 0 || i >= steps.len() {
        (steps.len() as int, ClickPhase::Finished, ClickAction::Succeeded)
    } else {
        match steps[i] {
            PlanStep::Sleep { duration_ms } => if skip_sleeps {
                enter(steps, skip_sleeps, i + 1)
            } else {
                (i, ClickPhase::SleepScope, ClickAction::SleepThenCheckScope { ms: duration_ms as u64 })
            },
            PlanStep::Click => (i, ClickPhase::ClickScope, ClickAction::CheckScope),
        }
    }
}

/// The decision after `ev` at step `i` in phase `phase`: the new step,
/// phase and action. Anything unexpected abandons the plan.
pub open spec fn click_transition(
    steps: Seq<PlanStep>,
    skip_sleeps: bool,
    i: int,
    phase: ClickPhase,
    ev: ClickEvent,
) -> (int, ClickPhase, ClickAction) {
    let fail = (i, ClickPhase::Finished, ClickAction::Failed);
    match (phase, ev) {
        (ClickPhase::SleepScope, ClickEvent::Scope(active)) => if active {
            enter(steps, skip_sleeps, i + 1)
        } else {
            fail
        },
        (ClickPhase::ClickScope, ClickEvent::Scope(active)) => if active {
            (i, ClickPhase::Canvas, ClickAction::ResolveCanvas { step: i as usize })
        } else {
            fail
        },
        (ClickPhase::Canvas, ClickEvent::Canvas(found)) => if found == Some(true) {
            (i, ClickPhase::Dispatch { attempt: 0 }, ClickAction::Dispatch { step: i as usize, attempt: 0 })
        } else {
            fail
        },
        (ClickPhase::Dispatch { attempt }, ClickEvent::Dispatched(outcome)) => if outcome == DispatchOutcome::Clicked {
            enter(steps, skip_sleeps, i + 1)
        } else if attempt + 1 < CLICK_RETRY_MAX {
            (
                i,
                ClickPhase::RetryScope { attempt: (attempt + 1) as u32 },
                ClickAction::PauseThenCheckScope { ms: CLICK_RETRY_GAP_MS },
            )
        } else {
            fail
        },
        (ClickPhase::RetryScope { attempt }, ClickEvent::Scope(active)) => if active {
            (i, ClickPhase::Dispatch { attempt }, ClickAction::Dispatch { step: i as usize, attempt })
        } else {
            fail
        },
        _ => fail,
    }
}

impl ClickRun {
    /// The state of the run, as step index and phase.
    pub open spec fn at(&self) -> (int, ClickPhase) {
        (self.index as int, self.phase)
    }

    /// The run is at a step of its plan, or finished; a step's phase fits
    /// the step; attempts stay under the cap.
    pub open spec fn wf(&self) -> bool {
        &&& self.index <= self.steps@.len()
        &&& match self.phase {
            ClickPhase::Finished => true,
            ClickPhase::SleepScope => self.index < self.steps@.len() && self.steps@[self.index as int] is Sleep,
            ClickPhase::Dispatch { attempt } => self.index < self.steps@.len() && self.steps@[self.index as int]
                is Click && attempt < CLICK_RETRY_MAX,
            ClickPhase::RetryScope { attempt } => self.index < self.steps@.len()
                && self.steps@[self.index as int] is Click && 0 < attempt < CLICK_RETRY_MAX,
            _ => self.index < self.steps@.len() && self.steps@[self.index as int] is Click,
        }
    }

    fn enter_at(&mut self, i: usize) -> (r: ClickAction)
        requires
            i <= old(self).steps@.len(),
        ensures
            final(self).steps == old(self).steps,
            final(self).skip_sleeps == old(self).skip_sleeps,
            (final(self).index as int, final(self).phase, r) == enter(old(self).steps@, old(self).skip_sleeps, i as int),
            final(self).wf(),
        decreases old(self).steps@.len() - i,
    {
        if i >= self.steps.len() {
            self.index = self.steps.len();
            self.phase = ClickPhase::Finished;
            return ClickAction::Succeeded;
        }
        match self.steps[i] {
            PlanStep::Sleep { duration_ms } => {
                if self.skip_sleeps {
                    self.enter_at(i + 1)
                } else {
                    self.index = i;
                    self.phase = ClickPhase::SleepScope;
                    ClickAction::SleepThenCheckScope { ms: duration_ms as u64 }
                }
            },
            PlanStep::Click => {
                self.index = i;
                self.phase = ClickPhase::ClickScope;
                ClickAction::CheckScope
            },
        }
    }

    /// Start carrying out `steps`; sleeps are skipped when `skip_sleeps`.
    pub fn start(steps: Vec<PlanStep>, skip_sleeps: bool) -> (r: (ClickRun, ClickAction))
        ensures
            r.0.steps@ == steps@,
            r.0.skip_sleeps == skip_sleeps,
            r.0.wf(),
            (r.0.index as int, r.0.phase, r.1) == enter(steps@, skip_sleeps, 0),
    {
        let mut run = ClickRun { steps, skip_sleeps, index: 0, phase: ClickPhase::Finished };
        let a = run.enter_at(0);
        (run, a)
    }

    /// Take in the outcome of the last action and decide the next one.
    pub fn on_event(&mut self, ev: ClickEvent) -> (r: ClickAction)
        requires
            old(self).wf(),
        ensures
            final(self).wf(),
            final(self).steps == old(self).steps,
            final(self).skip_sleeps == old(self).skip_sleeps,
            (final(self).index as int, final(self).phase, r) == click_transition(
                old(self).steps@,
                old(self).skip_sleeps,
                old(self).index as int,
                old(self).phase,
                ev,
            ),
    {
        let i = self.index;
        let n = self.steps.len();
        assert(n == self.steps@.len());
        match (self.phase, ev) {
            (ClickPhase::SleepScope, ClickEvent::Scope(active)) => {
                if active {
                    return self.enter_at(i + 1);
                }
            },
            (ClickPhase::ClickScope, ClickEvent::Scope(active)) => {
                if active {
                    self.phase = ClickPhase::Canvas;
                    return ClickAction::ResolveCanvas { step: i };
                }
            },
            (ClickPhase::Canvas, ClickEvent::Canvas(found)) => {
                if found == Some(true) {
                    self.phase = ClickPhase::Dispatch { attempt: 0 };
                    return ClickAction::Dispatch { step: i, attempt: 0 };
                }
            },
            (ClickPhase::Dispatch { attempt }, ClickEvent::Dispatched(outcome)) => {
                match outcome {
                    DispatchOutcome::Clicked => {
                        return self.enter_at(i + 1);
                    },
                    _ => {
                        if attempt < CLICK_RETRY_MAX - 1 {
                            self.phase = ClickPhase::RetryScope { attempt: attempt + 1 };
                            return ClickAction::PauseThenCheckScope { ms: CLICK_RETRY_GAP_MS };
                        }
                    },
                }
            },
            (ClickPhase::RetryScope { attempt }, ClickEvent::Scope(active)) => {
                if active {
                    self.phase = ClickPhase::Dispatch { attempt };
                    return ClickAction::Dispatch { step: i, attempt };
                }
            },
            _ => {},
        }
        self.phase = ClickPhase::Finished;
        ClickAction::Failed
    }
}

// ---------------------------------------------------------------------------
// What every run keeps
// ---------------------------------------------------------------------------

/// An upper bound on the events left before a run at step `i` in `phase`
/// of a plan of `n` steps ends.
pub open spec fn events_left(n: int, i: int, phase: ClickPhase) -> int {
    match phase {
        ClickPhase::Finished => 0,
        ClickPhase::SleepScope => 10 * (n - i) + 1,
        ClickPhase::ClickScope => 10 * (n - i) + 8,
        ClickPhase::Canvas => 10 * (n - i) + 7,
        ClickPhase::Dispatch { attempt } => 10 * (n - i) + 6 - 2 * attempt,
        ClickPhase::RetryScope { attempt } => 10 * (n - i) + 7 - 2 * attempt,
    }
}

/// Entering step `i` lands on step `i` or later, finished exactly past the
/// last step, and in a phase that fits the step.
proof fn lemma_enter(steps: Seq<PlanStep>, skip_sleeps: bool, i: int)
    requires
        0 <= i <= steps.len(),
    ensures
        ({
            let (j, phase, action) = enter(steps, skip_sleeps, i);
            &&& i <= j <= steps.len()
            &&& (phase is Finished <==> j == steps.len())
            &&& (action is Succeeded <==> j == steps.len())
            &&& (phase is Finished || phase is SleepScope || phase is ClickScope)
            &&& (phase is SleepScope ==> steps[j] is Sleep)
            &&& (phase is ClickScope ==> steps[j] is Click)
        }),
    decreases steps.len() - i,
{
    if i < steps.len() {
        match steps[i] {
            PlanStep::Sleep { .. } => {
                if skip_sleeps {
                    lemma_enter(steps, skip_sleeps, i + 1);
                }
            },
            PlanStep::Click => {},
        }
    }
}

/// From any state of a run, every event leads to a state with fewer
/// events left: carrying out a plan of `n` steps ends within `10 n + 8`
/// events.
pub proof fn lemma_click_run_terminates(run: ClickRun, ev: ClickEvent)
    requires
        run.wf(),
        !(run.phase is Finished),
    ensures
        ({
            let (j, phase, _) = click_transition(run.steps@, run.skip_sleeps, run.index as int, run.phase, ev);
            0 <= events_left(run.steps@.len() as int, j, phase) < events_left(
                run.steps@.len() as int,
                run.index as int,
                run.phase,
            ) <= 10 * run.steps@.len() + 8
        }),
{
    let n = run.steps@.len() as int;
    let i = run.index as int;
    if i + 1 <= n {
        lemma_enter(run.steps@, run.skip_sleeps, i + 1);
    }
}

/// A run reports success only once it is past its last step.
pub proof fn lemma_success_only_at_end(run: ClickRun, ev: ClickEvent)
    requires
        run.wf(),
    ensures
        click_transition(run.steps@, run.skip_sleeps, run.index as int, run.phase, ev).2 is Succeeded
            ==> click_transition(run.steps@, run.skip_sleeps, run.index as int, run.phase, ev).0
            == run.steps@.len(),
{
    let i = run.index as int;
    if i + 1 <= run.steps@.len() {
        lemma_enter(run.steps@, run.skip_sleeps, i + 1);
    }
}

/// A click step is left for the next step only when its click was
/// delivered.
pub proof fn lemma_click_step_needs_delivery(run: ClickRun, ev: ClickEvent)
    requires
        run.wf(),
        run.index < run.steps@.len(),
        run.steps@[run.index as int] is Click,
        click_transition(run.steps@, run.skip_sleeps, run.index as int, run.phase, ev).0 > run.index,
    ensures
        run.phase is Dispatch,
        ev == ClickEvent::Dispatched(DispatchOutcome::Clicked),
{
}

} // verus!
