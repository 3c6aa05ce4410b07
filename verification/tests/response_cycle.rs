use akagi::response_cycle::{
    DiscardSampling, SampleOutcome, SamplingAction,
    start, step, CycleAction, CycleEvent, CycleState, PlanShape, VerifyOutcome, DAHAI_CONFIRM_OUTER_MAX_ROUNDS,
};

const CLICKS: PlanShape = PlanShape { steps_empty: false, has_click: true, inject_reach: false };
const NO_CLICK: PlanShape = PlanShape { steps_empty: false, has_click: false, inject_reach: false };

/// Feed `events` from the start; return every action taken.
fn run(events: &[CycleEvent]) -> (CycleState, Vec<CycleAction>) {
    let (mut st, first) = start();
    let mut actions = vec![first];
    for ev in events {
        let (next, action) = step(st, *ev);
        st = next;
        actions.push(action);
    }
    (st, actions)
}

fn enabled(samples: u32) -> CycleEvent {
    CycleEvent::Config { enabled: true, confirm_samples: samples }
}

fn planned(own_dahai: bool, shape: PlanShape) -> CycleEvent {
    CycleEvent::Planned { ready: true, own_dahai, shape }
}

#[test]
fn disabled_autoplay_stops_at_once() {
    let (st, actions) = run(&[CycleEvent::Config { enabled: false, confirm_samples: 5 }]);
    assert_eq!(st, CycleState::Done);
    assert_eq!(actions, vec![CycleAction::ReadConfig, CycleAction::Stop]);
}

#[test]
fn stale_response_is_dropped() {
    let (st, actions) = run(&[enabled(5), CycleEvent::Current(false)]);
    assert_eq!(st, CycleState::Done);
    assert_eq!(actions[1], CycleAction::SyncAndCheckCurrent { pause_ms: 48 });
    assert_eq!(actions[2], CycleAction::Stop);
}

#[test]
fn call_is_clicked_once_then_recorded() {
    let (st, actions) = run(&[
        enabled(5),
        CycleEvent::Current(true),
        CycleEvent::Scope(true),
        planned(false, CLICKS),
        CycleEvent::Clicked(true),
    ]);
    assert_eq!(st, CycleState::Done);
    assert_eq!(
        actions,
        vec![
            CycleAction::ReadConfig,
            CycleAction::SyncAndCheckCurrent { pause_ms: 48 },
            CycleAction::CheckScope,
            CycleAction::Plan { attempt: 0 },
            CycleAction::ExecuteClicks { retry: false },
            CycleAction::ApplySideEffects,
        ]
    );
}

#[test]
fn call_without_click_is_abandoned() {
    let (st, actions) = run(&[enabled(5), CycleEvent::Current(true), CycleEvent::Scope(true), planned(false, NO_CLICK)]);
    assert_eq!(st, CycleState::Done);
    assert_eq!(actions.last(), Some(&CycleAction::Stop));
}

#[test]
fn failed_call_click_aborts() {
    let (st, actions) = run(&[
        enabled(5),
        CycleEvent::Current(true),
        CycleEvent::Scope(true),
        planned(false, CLICKS),
        CycleEvent::Clicked(false),
    ]);
    assert_eq!(st, CycleState::Done);
    assert_eq!(actions.last(), Some(&CycleAction::Stop));
}

#[test]
fn own_discard_goes_through_confirmation() {
    let (st, actions) = run(&[
        enabled(3),
        CycleEvent::Current(true),
        CycleEvent::Scope(true),
        planned(true, CLICKS),
        CycleEvent::Scope(true),
        enabled(3),
        CycleEvent::Confirmed { agreed: Some(CLICKS) },
        CycleEvent::FinalConfirmed(true),
        CycleEvent::Clicked(true),
        CycleEvent::Verified(VerifyOutcome::Expected),
    ]);
    assert_eq!(st, CycleState::Done);
    assert_eq!(
        actions[4..].to_vec(),
        vec![
            CycleAction::CheckScope,
            CycleAction::ReadConfig,
            CycleAction::ConfirmDiscard { round: 0, samples: 5 },
            CycleAction::FinalConfirm,
            CycleAction::ExecuteClicks { retry: false },
            CycleAction::VerifyDiscard,
            CycleAction::ApplySideEffects,
        ]
    );
}

#[test]
fn missing_discard_resyncs_and_retries_next_round() {
    let (st, actions) = run(&[
        enabled(5),
        CycleEvent::Current(true),
        CycleEvent::Scope(true),
        planned(true, CLICKS),
        CycleEvent::Scope(true),
        enabled(50),
        CycleEvent::Confirmed { agreed: Some(CLICKS) },
        CycleEvent::FinalConfirmed(true),
        CycleEvent::Clicked(true),
        CycleEvent::Verified(VerifyOutcome::Missing),
        CycleEvent::Scope(true),
        CycleEvent::Scope(true),
        enabled(50),
        CycleEvent::Confirmed { agreed: Some(CLICKS) },
        CycleEvent::FinalConfirmed(true),
    ]);
    assert_eq!(actions[6], CycleAction::ConfirmDiscard { round: 0, samples: 20 });
    assert_eq!(actions[10], CycleAction::Resync { invalidate_canvas: true, pause_ms: 72 });
    assert_eq!(actions[11], CycleAction::CheckScope);
    assert_eq!(actions[13], CycleAction::ConfirmDiscard { round: 1, samples: 20 });
    assert_eq!(actions[15], CycleAction::ExecuteClicks { retry: true });
    assert_eq!(st, CycleState::AwaitConfirmedClicks { round: 1 });
}

#[test]
fn unstable_samples_give_up_after_the_last_round() {
    let mut events = vec![enabled(5), CycleEvent::Current(true), CycleEvent::Scope(true), planned(true, CLICKS)];
    for _ in 0..DAHAI_CONFIRM_OUTER_MAX_ROUNDS {
        events.push(CycleEvent::Scope(true));
        events.push(enabled(5));
        events.push(CycleEvent::Confirmed { agreed: None });
        events.push(CycleEvent::Scope(true));
    }
    let (st, actions) = run(&events);
    assert_eq!(st, CycleState::Done);
    assert_eq!(actions.last(), Some(&CycleAction::Stop));
    let rounds = actions.iter().filter(|a| matches!(a, CycleAction::ConfirmDiscard { .. })).count();
    assert_eq!(rounds, 8);
}

#[test]
fn own_discard_without_click_is_planned_again() {
    let (st, actions) = run(&[
        enabled(5),
        CycleEvent::Current(true),
        CycleEvent::Scope(true),
        planned(true, NO_CLICK),
        CycleEvent::Scope(true),
        planned(true, NO_CLICK),
        CycleEvent::Scope(true),
        planned(true, NO_CLICK),
    ]);
    assert_eq!(actions[4], CycleAction::PrepareReplan { pause_ms: 55 });
    assert_eq!(actions[5], CycleAction::Plan { attempt: 1 });
    assert_eq!(actions[7], CycleAction::Plan { attempt: 2 });
    // The third plan is accepted as it is and goes to confirmation.
    assert_eq!(actions[8], CycleAction::CheckScope);
    assert_eq!(st, CycleState::AwaitRoundScope { round: 0 });
}

#[test]
fn unexpected_event_stops_the_cycle() {
    let (st, actions) = run(&[CycleEvent::Clicked(true)]);
    assert_eq!(st, CycleState::Done);
    assert_eq!(actions.last(), Some(&CycleAction::Stop));
    assert_eq!(step(CycleState::Done, enabled(5)), (CycleState::Done, CycleAction::Stop));
}

#[test]
fn tracker_without_table_stops() {
    let (st, actions) = run(&[
        enabled(5),
        CycleEvent::Current(true),
        CycleEvent::Scope(true),
        CycleEvent::Planned { ready: false, own_dahai: true, shape: CLICKS },
    ]);
    assert_eq!(st, CycleState::Done);
    assert_eq!(actions.last(), Some(&CycleAction::Stop));
}

#[test]
fn discard_plan_is_confirmed_after_all_samples_agree() {
    let (mut s, first) = DiscardSampling::start(3, 5000);
    assert_eq!(first, SamplingAction::Sample { pause_ms: 0 });
    assert_eq!(s.gap_ms, 2000);
    assert_eq!(s.on_sample(SampleOutcome::Agrees), SamplingAction::Sample { pause_ms: 2000 });
    assert_eq!(s.on_sample(SampleOutcome::Agrees), SamplingAction::Sample { pause_ms: 2000 });
    assert_eq!(s.on_sample(SampleOutcome::Agrees), SamplingAction::Confirmed);
}

#[test]
fn one_disagreeing_or_unusable_sample_rejects_the_plan() {
    let (mut s, _) = DiscardSampling::start(5, 120);
    assert_eq!(s.on_sample(SampleOutcome::Agrees), SamplingAction::Sample { pause_ms: 120 });
    assert_eq!(s.on_sample(SampleOutcome::Disagrees), SamplingAction::Rejected);
    let (mut t, _) = DiscardSampling::start(5, 120);
    assert_eq!(t.on_sample(SampleOutcome::Unusable), SamplingAction::Rejected);
    let (_, none) = DiscardSampling::start(0, 120);
    assert_eq!(none, SamplingAction::Rejected);
}
