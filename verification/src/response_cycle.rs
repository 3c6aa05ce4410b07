//! How the autoplay manager carries out one bot response, as a state
//! machine: the caller performs each [`CycleAction`] (reading the
//! configuration, syncing with the event bus, planning, confirming and
//! clicking a discard, checking the river) and reports what came of it as
//! a [`CycleEvent`]; [`step`] decides what to do next.
//!
//! An own discard goes through confirmation rounds: the plan must agree
//! across samples, pass a final check, be clicked, and show up on the
//! river; any failure resyncs and starts the next round, up to
//! [`DAHAI_CONFIRM_OUTER_MAX_ROUNDS`]. Every other response is clicked
//! once.
use vstd::prelude::*;
use crate::autoplay::effective_dahai_confirm_samples;

verus! {

/// Planning attempts before a plan without a click is accepted.
pub const PLAN_RETRY_MAX: u32 = 3;

/// Confirmation rounds for one own discard.
pub const DAHAI_CONFIRM_OUTER_MAX_ROUNDS: u32 = 8;

/// Re-clicks of a discard that did not reach the river.
pub const DISCARD_UNCONFIRMED_RECLICK_MAX: u32 = 5;

/// Pause that lets the game tracker catch up with the event bus.
pub const TRACKER_SYNC_MS: u64 = 48;

/// Pause before planning again.
pub const PLAN_RETRY_GAP_MS: u64 = 55;

/// Pause between confirmation rounds.
pub const DAHAI_CONFIRM_OUTER_GAP_MS: u64 = 72;

/// Pause before re-clicking an unconfirmed discard.
pub const DISCARD_RECLICK_GAP_MS: u64 = 160;

/// What a plan amounts to: whether it has steps, whether any step clicks,
/// and whether it declares riichi for a follow-up discard.
#[derive(Debug, Clone, Copy, PartialEq, Eq, Structural)]
pub struct PlanShape {
    pub steps_empty: bool,
    pub has_click: bool,
    pub inject_reach: bool,
}

/// What the river showed after a discard was clicked.
#[derive(Debug, Clone, Copy, PartialEq, Eq, Structural)]
pub enum VerifyOutcome {
    /// The bot's tile arrived.
    Expected,
    /// Another tile arrived: the bot's action is stale.
    Different,
    /// Nothing arrived in time.
    Missing,
    /// No tracker snapshot to compare against.
    NoSnapshot,
}

/// The outcome of the last action.
#[derive(Debug, Clone, Copy, PartialEq, Eq, Structural)]
pub enum CycleEvent {
    /// Autoplay is enabled or not; the configured discard samples.
    Config { enabled: bool, confirm_samples: u32 },
    /// The response still answers the latest event.
    Current(bool),
    /// The response's click scope is still active.
    Scope(bool),
    /// A plan was made (`ready`: the tracker had a table to plan on);
    /// `own_dahai`: the response is our own discard.
    Planned { ready: bool, own_dahai: bool, shape: PlanShape },
    /// The discard samples agreed on a plan, or did not.
    Confirmed { agreed: Option<PlanShape> },
    /// The last check before clicking passed.
    FinalConfirmed(bool),
    /// The click sequence ran through.
    Clicked(bool),
    /// What the river showed.
    Verified(VerifyOutcome),
}

/// What the caller does next.
#[derive(Debug, Clone, Copy, PartialEq, Eq, Structural)]
pub enum CycleAction {
    /// Read the autoplay configuration.
    ReadConfig,
    /// Pause, drain the event bus, and check the response is current.
    SyncAndCheckCurrent { pause_ms: u64 },
    /// Check the response's click scope.
    CheckScope,
    /// Read the tracker and plan (attempt numbers count from 0).
    Plan { attempt: u32 },
    /// Pause, drain the event bus, and check the click scope.
    PrepareReplan { pause_ms: u64 },
    /// Sample the discard plan until `samples` agree.
    ConfirmDiscard { round: u32, samples: u32 },
    /// Check the confirmed plan once more before clicking.
    FinalConfirm,
    /// Run the plan's clicks; `retry` after an earlier attempt.
    ExecuteClicks { retry: bool },
    /// Watch the river for the discard.
    VerifyDiscard,
    /// Optionally drop the cached canvas, resync with the event bus, check
    /// the click scope, and pause when it is active.
    Resync { invalidate_canvas: bool, pause_ms: u64 },
    /// Record the plan's effects (riichi follow-up, last discard).
    ApplySideEffects,
    /// Nothing more for this response.
    Stop,
}

/// Where the handling of one response stands.
#[derive(Debug, Clone, Copy, PartialEq, Eq, Structural)]
pub enum CycleState {
    AwaitConfig,
    AwaitCurrent { samples: u32 },
    AwaitScope { samples: u32 },
    AwaitPlan { attempt: u32, samples: u32 },
    AwaitReplanScope { attempt: u32, samples: u32 },
    AwaitRoundScope { round: u32 },
    AwaitRoundConfig { round: u32 },
    AwaitConfirm { round: u32 },
    AwaitFinalConfirm { round: u32 },
    AwaitConfirmedClicks { round: u32 },
    AwaitConfirmedVerify { round: u32 },
    AwaitResyncScope { round: u32 },
    AwaitClicks { reclicks: u32, own_dahai: bool },
    AwaitVerify { reclicks: u32 },
    AwaitReclickScope { reclicks: u32 },
    Done,
}

/// The configured discard samples clamped to `5..=20`.
pub open spec fn confirm_samples(configured: u32) -> u32 {
    if configured < 5 {
        5
    } else if configured > 20 {
        20
    } else {
        configured
    }
}

/// A plan the caller may click: it clicks, or it declares riichi.
pub open spec fn clickable(s: PlanShape) -> bool {
    s.has_click || s.inject_reach
}

/// Leave the current confirmation round through a resync.
pub open spec fn resync(round: u32, invalidate_canvas: bool) -> (CycleState, CycleAction) {
    (
        CycleState::AwaitResyncScope { round },
        CycleAction::Resync { invalidate_canvas, pause_ms: DAHAI_CONFIRM_OUTER_GAP_MS },
    )
}

/// Give up on the response.
pub open spec fn halt() -> (CycleState, CycleAction) {
    (CycleState::Done, CycleAction::Stop)
}

/// The decision after `ev` in state `st`. An event the state does not
/// wait for stops the cycle.
pub open spec fn spec_step(st: CycleState, ev: CycleEvent) -> (CycleState, CycleAction) {
    match (st, ev) {
        (CycleState::AwaitConfig, CycleEvent::Config { enabled, confirm_samples }) => if enabled {
            (
                CycleState::AwaitCurrent { samples: confirm_samples },
                CycleAction::SyncAndCheckCurrent { pause_ms: TRACKER_SYNC_MS },
            )
        } else {
            halt()
        },
        (CycleState::AwaitCurrent { samples }, CycleEvent::Current(current)) => if current {
            (CycleState::AwaitScope { samples }, CycleAction::CheckScope)
        } else {
            halt()
        },
        (CycleState::AwaitScope { samples }, CycleEvent::Scope(active)) => if active {
            (CycleState::AwaitPlan { attempt: 0, samples }, CycleAction::Plan { attempt: 0 })
        } else {
            halt()
        },
        (CycleState::AwaitPlan { attempt, samples }, CycleEvent::Planned { ready, own_dahai, shape }) => {
            if !ready {
                halt()
            } else if own_dahai && !clickable(shape) && attempt + 1 < PLAN_RETRY_MAX {
                (
                    CycleState::AwaitReplanScope { attempt: (attempt + 1) as u32, samples },
                    CycleAction::PrepareReplan { pause_ms: PLAN_RETRY_GAP_MS },
                )
            } else if own_dahai && confirm_samples(samples) > 0 {
                (CycleState::AwaitRoundScope { round: 0 }, CycleAction::CheckScope)
            } else if !clickable(shape) {
                halt()
            } else {
                (CycleState::AwaitClicks { reclicks: 0, own_dahai }, CycleAction::ExecuteClicks { retry: false })
            }
        },
        (CycleState::AwaitReplanScope { attempt, samples }, CycleEvent::Scope(active)) => if active {
            (CycleState::AwaitPlan { attempt, samples }, CycleAction::Plan { attempt })
        } else {
            halt()
        },
        (CycleState::AwaitRoundScope { round }, CycleEvent::Scope(active)) => if active {
            (CycleState::AwaitRoundConfig { round }, CycleAction::ReadConfig)
        } else {
            halt()
        },
        (CycleState::AwaitRoundConfig { round }, CycleEvent::Config { enabled, confirm_samples: c }) => if enabled {
            (
                CycleState::AwaitConfirm { round },
                CycleAction::ConfirmDiscard { round, samples: confirm_samples(c) },
            )
        } else {
            halt()
        },
        (CycleState::AwaitConfirm { round }, CycleEvent::Confirmed { agreed }) => match agreed {
            Some(shape) => if clickable(shape) {
                (CycleState::AwaitFinalConfirm { round }, CycleAction::FinalConfirm)
            } else {
                resync(round, false)
            },
            None => resync(round, false),
        },
        (CycleState::AwaitFinalConfirm { round }, CycleEvent::FinalConfirmed(ok)) => if ok {
            (CycleState::AwaitConfirmedClicks { round }, CycleAction::ExecuteClicks { retry: round > 0 })
        } else {
            resync(round, false)
        },
        (CycleState::AwaitConfirmedClicks { round }, CycleEvent::Clicked(ok)) => if ok {
            (CycleState::AwaitConfirmedVerify { round }, CycleAction::VerifyDiscard)
        } else {
            resync(round, true)
        },
        (CycleState::AwaitConfirmedVerify { round }, CycleEvent::Verified(v)) => if v == VerifyOutcome::Missing {
            resync(round, true)
        } else {
            (CycleState::Done, CycleAction::ApplySideEffects)
        },
        (CycleState::AwaitResyncScope { round }, CycleEvent::Scope(active)) => if active && round + 1
            < DAHAI_CONFIRM_OUTER_MAX_ROUNDS {
            (CycleState::AwaitRoundScope { round: (round + 1) as u32 }, CycleAction::CheckScope)
        } else {
            halt()
        },
        (CycleState::AwaitClicks { reclicks, own_dahai }, CycleEvent::Clicked(ok)) => if !ok {
            halt()
        } else if own_dahai {
            (CycleState::AwaitVerify { reclicks }, CycleAction::VerifyDiscard)
        } else {
            (CycleState::Done, CycleAction::ApplySideEffects)
        },
        (CycleState::AwaitVerify { reclicks }, CycleEvent::Verified(v)) => if v != VerifyOutcome::Missing {
            (CycleState::Done, CycleAction::ApplySideEffects)
        } else if reclicks + 1 > DISCARD_UNCONFIRMED_RECLICK_MAX {
            halt()
        } else {
            (
                CycleState::AwaitReclickScope { reclicks: (reclicks + 1) as u32 },
                CycleAction::Resync { invalidate_canvas: true, pause_ms: DISCARD_RECLICK_GAP_MS },
            )
        },
        (CycleState::AwaitReclickScope { reclicks }, CycleEvent::Scope(active)) => if active {
            (CycleState::AwaitClicks { reclicks, own_dahai: true }, CycleAction::ExecuteClicks { retry: true })
        } else {
            halt()
        },
        _ => halt(),
    }
}

/// The first state and action for a new response.
pub fn start() -> (r: (CycleState, CycleAction))
    ensures
        r == (CycleState::AwaitConfig, CycleAction::ReadConfig),
{
    (CycleState::AwaitConfig, CycleAction::ReadConfig)
}

fn resync_to(round: u32, invalidate_canvas: bool) -> (r: (CycleState, CycleAction))
    ensures
        r == resync(round, invalidate_canvas),
{
    (
        CycleState::AwaitResyncScope { round },
        CycleAction::Resync { invalidate_canvas, pause_ms: DAHAI_CONFIRM_OUTER_GAP_MS },
    )
}

fn stop() -> (r: (CycleState, CycleAction))
    ensures
        r == halt(),
{
    (CycleState::Done, CycleAction::Stop)
}

/// Decide what follows `ev` in state `st`.
pub fn step(st: CycleState, ev: CycleEvent) -> (r: (CycleState, CycleAction))
    ensures
        r == spec_step(st, ev),
{
    match (st, ev) {
        (CycleState::AwaitConfig, CycleEvent::Config { enabled, confirm_samples }) => {
            if enabled {
                (
                    CycleState::AwaitCurrent { samples: confirm_samples },
                    CycleAction::SyncAndCheckCurrent { pause_ms: TRACKER_SYNC_MS },
                )
            } else {
                stop()
            }
        },
        (CycleState::AwaitCurrent { samples }, CycleEvent::Current(current)) => {
            if current {
                (CycleState::AwaitScope { samples }, CycleAction::CheckScope)
            } else {
                stop()
            }
        },
        (CycleState::AwaitScope { samples }, CycleEvent::Scope(active)) => {
            if active {
                (CycleState::AwaitPlan { attempt: 0, samples }, CycleAction::Plan { attempt: 0 })
            } else {
                stop()
            }
        },
        (CycleState::AwaitPlan { attempt, samples }, CycleEvent::Planned { ready, own_dahai, shape }) => {
            let clicks = shape.has_click || shape.inject_reach;
            if !ready {
                stop()
            } else if own_dahai && !clicks && attempt < PLAN_RETRY_MAX - 1 {
                (
                    CycleState::AwaitReplanScope { attempt: attempt + 1, samples },
                    CycleAction::PrepareReplan { pause_ms: PLAN_RETRY_GAP_MS },
                )
            } else if own_dahai && effective_dahai_confirm_samples(samples) > 0 {
                (CycleState::AwaitRoundScope { round: 0 }, CycleAction::CheckScope)
            } else if !clicks {
                stop()
            } else {
                (CycleState::AwaitClicks { reclicks: 0, own_dahai }, CycleAction::ExecuteClicks { retry: false })
            }
        },
        (CycleState::AwaitReplanScope { attempt, samples }, CycleEvent::Scope(active)) => {
            if active {
                (CycleState::AwaitPlan { attempt, samples }, CycleAction::Plan { attempt })
            } else {
                stop()
            }
        },
        (CycleState::AwaitRoundScope { round }, CycleEvent::Scope(active)) => {
            if active {
                (CycleState::AwaitRoundConfig { round }, CycleAction::ReadConfig)
            } else {
                stop()
            }
        },
        (CycleState::AwaitRoundConfig { round }, CycleEvent::Config { enabled, confirm_samples }) => {
            if enabled {
                (
                    CycleState::AwaitConfirm { round },
                    CycleAction::ConfirmDiscard { round, samples: effective_dahai_confirm_samples(confirm_samples) },
                )
            } else {
                stop()
            }
        },
        (CycleState::AwaitConfirm { round }, CycleEvent::Confirmed { agreed }) => {
            match agreed {
                Some(shape) => {
                    if shape.has_click || shape.inject_reach {
                        (CycleState::AwaitFinalConfirm { round }, CycleAction::FinalConfirm)
                    } else {
                        resync_to(round, false)
                    }
                },
                None => resync_to(round, false),
            }
        },
        (CycleState::AwaitFinalConfirm { round }, CycleEvent::FinalConfirmed(ok)) => {
            if ok {
                (CycleState::AwaitConfirmedClicks { round }, CycleAction::ExecuteClicks { retry: round > 0 })
            } else {
                resync_to(round, false)
            }
        },
        (CycleState::AwaitConfirmedClicks { round }, CycleEvent::Clicked(ok)) => {
            if ok {
                (CycleState::AwaitConfirmedVerify { round }, CycleAction::VerifyDiscard)
            } else {
                resync_to(round, true)
            }
        },
        (CycleState::AwaitConfirmedVerify { round }, CycleEvent::Verified(v)) => {
            match v {
                VerifyOutcome::Missing => resync_to(round, true),
                _ => (CycleState::Done, CycleAction::ApplySideEffects),
            }
        },
        (CycleState::AwaitResyncScope { round }, CycleEvent::Scope(active)) => {
            if active && round < DAHAI_CONFIRM_OUTER_MAX_ROUNDS - 1 {
                (CycleState::AwaitRoundScope { round: round + 1 }, CycleAction::CheckScope)
            } else {
                stop()
            }
        },
        (CycleState::AwaitClicks { reclicks, own_dahai }, CycleEvent::Clicked(ok)) => {
            if !ok {
                stop()
            } else if own_dahai {
                (CycleState::AwaitVerify { reclicks }, CycleAction::VerifyDiscard)
            } else {
                (CycleState::Done, CycleAction::ApplySideEffects)
            }
        },
        (CycleState::AwaitVerify { reclicks }, CycleEvent::Verified(v)) => {
            match v {
                VerifyOutcome::Missing => {
                    if reclicks >= DISCARD_UNCONFIRMED_RECLICK_MAX {
                        stop()
                    } else {
                        (
                            CycleState::AwaitReclickScope { reclicks: reclicks + 1 },
                            CycleAction::Resync { invalidate_canvas: true, pause_ms: DISCARD_RECLICK_GAP_MS },
                        )
                    }
                },
                _ => (CycleState::Done, CycleAction::ApplySideEffects),
            }
        },
        (CycleState::AwaitReclickScope { reclicks }, CycleEvent::Scope(active)) => {
            if active {
                (CycleState::AwaitClicks { reclicks, own_dahai: true }, CycleAction::ExecuteClicks { retry: true })
            } else {
                stop()
            }
        },
        _ => stop(),
    }
}

// ---------------------------------------------------------------------------
// What every run of the cycle keeps
// ---------------------------------------------------------------------------

/// States a run can reach: attempts and rounds within their caps, and the
/// plain click path taken only by responses other than an own discard.
pub open spec fn cycle_wf(st: CycleState) -> bool {
    match st {
        CycleState::AwaitPlan { attempt, .. } => attempt < PLAN_RETRY_MAX,
        CycleState::AwaitReplanScope { attempt, .. } => attempt < PLAN_RETRY_MAX,
        CycleState::AwaitRoundScope { round } => round < DAHAI_CONFIRM_OUTER_MAX_ROUNDS,
        CycleState::AwaitRoundConfig { round } => round < DAHAI_CONFIRM_OUTER_MAX_ROUNDS,
        CycleState::AwaitConfirm { round } => round < DAHAI_CONFIRM_OUTER_MAX_ROUNDS,
        CycleState::AwaitFinalConfirm { round } => round < DAHAI_CONFIRM_OUTER_MAX_ROUNDS,
        CycleState::AwaitConfirmedClicks { round } => round < DAHAI_CONFIRM_OUTER_MAX_ROUNDS,
        CycleState::AwaitConfirmedVerify { round } => round < DAHAI_CONFIRM_OUTER_MAX_ROUNDS,
        CycleState::AwaitResyncScope { round } => round < DAHAI_CONFIRM_OUTER_MAX_ROUNDS,
        CycleState::AwaitClicks { reclicks, own_dahai } => !own_dahai && reclicks == 0,
        CycleState::AwaitVerify { .. } => false,
        CycleState::AwaitReclickScope { .. } => false,
        _ => true,
    }
}

/// An upper bound on the steps left before the run ends.
pub open spec fn steps_left(st: CycleState) -> int {
    match st {
        CycleState::AwaitConfig => 1000,
        CycleState::AwaitCurrent { .. } => 999,
        CycleState::AwaitScope { .. } => 998,
        CycleState::AwaitPlan { attempt, .. } => 990 - 2 * attempt,
        CycleState::AwaitReplanScope { attempt, .. } => 991 - 2 * attempt,
        CycleState::AwaitRoundScope { round } => 900 - 10 * round,
        CycleState::AwaitRoundConfig { round } => 899 - 10 * round,
        CycleState::AwaitConfirm { round } => 898 - 10 * round,
        CycleState::AwaitFinalConfirm { round } => 897 - 10 * round,
        CycleState::AwaitConfirmedClicks { round } => 896 - 10 * round,
        CycleState::AwaitConfirmedVerify { round } => 895 - 10 * round,
        CycleState::AwaitResyncScope { round } => 894 - 10 * round,
        CycleState::AwaitClicks { reclicks, .. } => 100 - 3 * reclicks,
        CycleState::AwaitVerify { reclicks } => 99 - 3 * reclicks,
        CycleState::AwaitReclickScope { reclicks } => 101 - 3 * reclicks,
        CycleState::Done => 0,
    }
}

/// A run starts in a reachable state, and from any reachable state every
/// event leads to a reachable state strictly fewer steps from the end:
/// handling one response always finishes, within a thousand steps.
pub proof fn lemma_cycle_terminates(st: CycleState, ev: CycleEvent)
    requires
        cycle_wf(st),
        !(st is Done),
    ensures
        cycle_wf(CycleState::AwaitConfig),
        0 <= steps_left(st) <= 1000,
        cycle_wf(spec_step(st, ev).0),
        0 <= steps_left(spec_step(st, ev).0) < steps_left(st),
{
}

/// Once done, a run stays done and does nothing.
pub proof fn lemma_done_is_final(ev: CycleEvent)
    ensures
        spec_step(CycleState::Done, ev) == (CycleState::Done, CycleAction::Stop),
{
}

/// A plan's effects are recorded only after its clicks went through and,
/// for a discard, the river did not report it missing.
pub proof fn lemma_effects_follow_success(st: CycleState, ev: CycleEvent)
    requires
        spec_step(st, ev).1 == CycleAction::ApplySideEffects,
    ensures
        (st is AwaitClicks && ev == CycleEvent::Clicked(true)) || ((st is AwaitConfirmedVerify
            || st is AwaitVerify) && (ev matches CycleEvent::Verified(v) && v
            != VerifyOutcome::Missing)),
        spec_step(st, ev).0 is Done,
{
}

/// An own discard is never clicked straight from a plan: the planner
/// either plans again or enters the confirmation rounds.
pub proof fn lemma_own_discard_is_confirmed(attempt: u32, samples: u32, shape: PlanShape)
    requires
        attempt < PLAN_RETRY_MAX,
    ensures
        ({
            let next = spec_step(
                CycleState::AwaitPlan { attempt, samples },
                CycleEvent::Planned { ready: true, own_dahai: true, shape },
            ).0;
            next is AwaitReplanScope || next == (CycleState::AwaitRoundScope { round: 0 })
        }),
{
}

/// On any run, clicks are executed only for a plan of a response other
/// than an own discard, or right after the final check of a confirmed
/// discard passed.
pub proof fn lemma_clicks_need_confirmation(st: CycleState, ev: CycleEvent)
    requires
        cycle_wf(st),
        spec_step(st, ev).1 is ExecuteClicks,
    ensures
        (st is AwaitFinalConfirm && ev == CycleEvent::FinalConfirmed(true)) || (st is AwaitPlan && (
        ev matches CycleEvent::Planned { own_dahai, shape, .. } && !own_dahai && clickable(shape))),
{
}

// ---------------------------------------------------------------------------
// Sampling a discard plan until it is stable
// ---------------------------------------------------------------------------

/// Longest pause between two discard samples.
pub const DAHAI_CONFIRM_GAP_CAP_MS: u64 = 2000;

/// How one sample of the discard plan compares with the first one.
#[derive(Debug, Clone, Copy, PartialEq, Eq, Structural)]
pub enum SampleOutcome {
    /// No table, no hand signature for the discard, or no click in the
    /// plan.
    Unusable,
    /// The first sample, or one with the same target, hand and click point
    /// as the first.
    Agrees,
    /// The target, hand or click point changed.
    Disagrees,
}

/// What the caller does next while sampling.
#[derive(Debug, Clone, Copy, PartialEq, Eq, Structural)]
pub enum SamplingAction {
    /// Pause, then plan once more and compare.
    Sample { pause_ms: u64 },
    /// Every sample agreed: the last plan is confirmed.
    Confirmed,
    /// The plan is not stable.
    Rejected,
}

/// Sampling a discard plan: how many samples must agree, how many have,
/// and the pause between samples.
#[derive(Debug, Clone, Copy, PartialEq, Eq, Structural)]
pub struct DiscardSampling {
    pub samples: u32,
    pub agreed: u32,
    pub gap_ms: u64,
}

impl DiscardSampling {
    /// Start sampling `samples` times with the configured gap (capped at
    /// [`DAHAI_CONFIRM_GAP_CAP_MS`]); the first sample is taken at once.
    /// Zero samples confirm nothing.
    pub fn start(samples: u32, configured_gap_ms: u32) -> (r: (DiscardSampling, SamplingAction))
        ensures
            r.0.samples == samples,
            r.0.agreed == 0,
            r.0.gap_ms == if configured_gap_ms > DAHAI_CONFIRM_GAP_CAP_MS { DAHAI_CONFIRM_GAP_CAP_MS } else { configured_gap_ms as u64 },
            r.1 == if samples == 0 { SamplingAction::Rejected } else { SamplingAction::Sample { pause_ms: 0 } },
    {
        let gap: u64 = configured_gap_ms as u64;
        let gap_ms = if gap > DAHAI_CONFIRM_GAP_CAP_MS { DAHAI_CONFIRM_GAP_CAP_MS } else { gap };
        let s = DiscardSampling { samples, agreed: 0, gap_ms };
        if samples == 0 {
            (s, SamplingAction::Rejected)
        } else {
            (s, SamplingAction::Sample { pause_ms: 0 })
        }
    }

    /// Count one more sample: a sample that is unusable or disagrees
    /// rejects the plan; the last of `samples` agreeing ones confirms it.
    pub fn on_sample(&mut self, outcome: SampleOutcome) -> (r: SamplingAction)
        requires
            old(self).agreed < old(self).samples,
        ensures
            final(self).samples == old(self).samples,
            final(self).gap_ms == old(self).gap_ms,
            outcome != SampleOutcome::Agrees ==> r == SamplingAction::Rejected && final(self).agreed == old(self).agreed,
            outcome == SampleOutcome::Agrees ==> final(self).agreed == old(self).agreed + 1 && r == if final(self).agreed
                == final(self).samples {
                SamplingAction::Confirmed
            } else {
                SamplingAction::Sample { pause_ms: old(self).gap_ms }
            },
    {
        match outcome {
            SampleOutcome::Agrees => {
                self.agreed = self.agreed + 1;
                if self.agreed == self.samples {
                    SamplingAction::Confirmed
                } else {
                    SamplingAction::Sample { pause_ms: self.gap_ms }
                }
            },
            _ => SamplingAction::Rejected,
        }
    }
}

} // verus!
