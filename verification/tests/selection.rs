use std::collections::VecDeque;
use yazelix_venus::selection::{
    batch_continues_server_gesture, flush_step, sends_selection_now, FlushDecision,
    DeferredSelection, MAX_DEFERRED_SELECTION_MESSAGES, SelectionGate, SelectionStep, pointer_sequence_needs_cancel,
    queue_deferred_selection, selection_presentation_is_ready, take_deferred_selection,
};

#[test]
fn selection_gate_waits_for_finish_and_its_authoritative_presentation() {
    let mut gate = SelectionGate::Ready;

    assert!(gate.admits(7));
    gate.finish_sent();
    assert!(!gate.admits(7));

    gate.finish_received(8);
    assert!(!gate.admits(7));
    assert!(gate.admits(8));

    gate.finish_sent();
    gate.finish_received(8);
    assert!(gate.admits(9));
}

fn step(step: SelectionStep) -> DeferredSelection<(u32, u32)> {
    DeferredSelection { step, gesture: (1, 2) }
}

fn begin(revision: u64) -> DeferredSelection<(u32, u32)> {
    step(SelectionStep::Begin { frame_revision: revision })
}

#[test]
fn deferred_selection_preserves_order_bounds_and_cancel_ownership() {
    let mut pending = VecDeque::from([
        begin(1),
        step(SelectionStep::Finish),
        begin(1),
        step(SelectionStep::Finish),
        step(SelectionStep::Copy),
    ]);

    let first = take_deferred_selection(&mut pending, 7);
    assert_eq!(first.len(), 2);
    assert_eq!(first[0].step, SelectionStep::Begin { frame_revision: 7 });
    assert_eq!(first[1].step, SelectionStep::Finish);
    assert!(matches!(pending.front().map(|entry| entry.step), Some(SelectionStep::Begin { .. })));

    assert_eq!(take_deferred_selection(&mut pending, 8).len(), 2);
    let last = take_deferred_selection(&mut pending, 9);
    assert_eq!(last.len(), 1);
    assert_eq!(last[0].step, SelectionStep::Copy);
    assert!(pending.is_empty());

    for _ in 0..MAX_DEFERRED_SELECTION_MESSAGES {
        pending.push_back(step(SelectionStep::Copy));
    }
    assert!(!queue_deferred_selection(&mut pending, step(SelectionStep::Copy)));

    let local_begin = VecDeque::from([step(SelectionStep::Copy), begin(1)]);
    let server_finish = VecDeque::from([step(SelectionStep::Finish)]);
    let ready = SelectionGate::Ready;
    let empty: VecDeque<DeferredSelection<(u32, u32)>> = VecDeque::new();
    assert!(!pointer_sequence_needs_cancel(&ready, true, &local_begin));
    assert!(pointer_sequence_needs_cancel(&ready, false, &server_finish));
    assert!(pointer_sequence_needs_cancel(&SelectionGate::AwaitingFinish, false, &empty));
    assert!(pointer_sequence_needs_cancel(&ready, true, &empty));
    assert!(!pointer_sequence_needs_cancel(&ready, false, &empty));
}

#[test]
fn copy_needs_no_current_presentation() {
    assert!(selection_presentation_is_ready(SelectionStep::Copy, false));
    assert!(!selection_presentation_is_ready(SelectionStep::Finish, false));
    assert!(selection_presentation_is_ready(SelectionStep::Update, true));
}

#[test]
fn updates_before_a_begin_stay_in_one_batch() {
    let mut pending = VecDeque::from([step(SelectionStep::Update), step(SelectionStep::Update), begin(3)]);
    let batch = take_deferred_selection(&mut pending, 5);
    assert_eq!(batch.len(), 2);
    assert_eq!(pending.len(), 1);
    assert_eq!(pending[0].step, SelectionStep::Begin { frame_revision: 3 });
}

#[test]
fn released_batches_cancel_only_gestures_that_orbit_knows() {
    assert!(batch_continues_server_gesture(Some(SelectionStep::Update)));
    assert!(batch_continues_server_gesture(Some(SelectionStep::Finish)));
    assert!(!batch_continues_server_gesture(Some(SelectionStep::Begin { frame_revision: 1 })));
    assert!(!batch_continues_server_gesture(None));

    assert_eq!(
        flush_step(false, SelectionStep::Begin { frame_revision: 3 }, true),
        FlushDecision::Continue { server_gesture: true, finish_sent: false }
    );
    assert_eq!(
        flush_step(true, SelectionStep::Finish, true),
        FlushDecision::Continue { server_gesture: true, finish_sent: true }
    );
    assert_eq!(flush_step(false, SelectionStep::Update, false), FlushDecision::Abort { send_cancel: false });
    assert_eq!(flush_step(true, SelectionStep::Update, false), FlushDecision::Abort { send_cancel: true });
}

#[test]
fn selection_steps_wait_their_turn() {
    assert!(sends_selection_now(true, true, &SelectionGate::Ready));
    assert!(!sends_selection_now(false, true, &SelectionGate::Ready));
    assert!(!sends_selection_now(true, false, &SelectionGate::Ready));
    assert!(!sends_selection_now(true, true, &SelectionGate::AwaitingFinish));
}
