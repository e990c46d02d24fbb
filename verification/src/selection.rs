//! Ordering of terminal selection gestures against authoritative presentations.
//!
//! A selection gesture is sent only once the content it targets is presented; until
//! then its steps wait in a bounded queue and are released one gesture at a time.

use vstd::prelude::*;
use std::collections::VecDeque;

verus! {

/// Most selection steps that may wait for a presentation.
pub const MAX_DEFERRED_SELECTION_MESSAGES: usize = 256;

/// Whether selection input may go to Orbit now.
#[derive(Clone, Copy, Debug, PartialEq, Eq, Structural)]
pub enum SelectionGate {
    /// Nothing is outstanding.
    Ready,
    /// A finish was sent and Orbit has not confirmed it yet.
    AwaitingFinish,
    /// Orbit confirmed the finish for this frame revision, which is not presented yet.
    AwaitingPresentation(u64),
}

impl Default for SelectionGate {
    fn default() -> (gate: Self)
        ensures
            gate == SelectionGate::Ready,
    {
        SelectionGate::Ready
    }
}

impl SelectionGate {
    /// A selection finish was written to Orbit.
    pub fn finish_sent(&mut self)
        ensures
            *final(self) == SelectionGate::AwaitingFinish,
    {
        *self = SelectionGate::AwaitingFinish;
    }

    /// Orbit confirmed the outstanding finish at `frame_revision`.
    pub fn finish_received(&mut self, frame_revision: u64)
        ensures
            *old(self) == SelectionGate::AwaitingFinish ==> *final(self)
                == SelectionGate::AwaitingPresentation(frame_revision),
            *old(self) != SelectionGate::AwaitingFinish ==> *final(self) == *old(self),
    {
        if let SelectionGate::AwaitingFinish = *self {
            *self = SelectionGate::AwaitingPresentation(frame_revision);
        }
    }

    /// Whether new selection input is admitted once `presented_revision` is on screen.
    pub fn admits(&mut self, presented_revision: u64) -> (admitted: bool)
        ensures
            *final(self) == (match *old(self) {
                SelectionGate::AwaitingPresentation(required) if presented_revision >= required => SelectionGate::Ready,
                gate => gate,
            }),
            admitted == (*final(self) == SelectionGate::Ready),
    {
        if let SelectionGate::AwaitingPresentation(required) = *self {
            if presented_revision >= required {
                *self = SelectionGate::Ready;
            }
        }
        match *self {
            SelectionGate::Ready => true,
            _ => false,
        }
    }
}

/// One step of a selection gesture as Orbit receives it.
#[derive(Clone, Copy, Debug, PartialEq, Eq, Structural)]
pub enum SelectionStep {
    /// Start a gesture on the given frame revision.
    Begin { frame_revision: u64 },
    Update,
    Finish,
    Copy,
    Cancel,
}

/// A waiting selection step with the native gesture data it carries.
#[derive(Debug)]
pub struct DeferredSelection<P> {
    pub step: SelectionStep,
    pub gesture: P,
}

/// The number of waiting steps that form the next batch when scanning from `j`:
/// a batch ends after a finish or copy, and before any later begin.
pub open spec fn batch_end_from<P>(pending: Seq<DeferredSelection<P>>, j: int) -> int
    decreases pending.len() - j,
{
    if j < 0 || j >= pending.len() {
        pending.len() as int
    } else if j > 0 && pending[j].step is Begin {
        j
    } else if pending[j].step is Finish || pending[j].step is Copy {
        j + 1
    } else {
        batch_end_from(pending, j + 1)
    }
}

/// The next batch: its length in `pending`.
pub open spec fn batch_end<P>(pending: Seq<DeferredSelection<P>>) -> int {
    batch_end_from(pending, 0)
}

/// A waiting step as released against `frame_revision`: a begin is rebased onto it.
pub open spec fn rebased<P>(item: DeferredSelection<P>, frame_revision: u64) -> DeferredSelection<P> {
    match item.step {
        SelectionStep::Begin { .. } => DeferredSelection {
            step: SelectionStep::Begin { frame_revision },
            gesture: item.gesture,
        },
        _ => item,
    }
}

proof fn lemma_batch_end_bounds<P>(pending: Seq<DeferredSelection<P>>, j: int)
    requires
        0 <= j <= pending.len(),
    ensures
        j <= batch_end_from(pending, j) <= pending.len(),
        j < pending.len() ==> j < batch_end_from(pending, j) || (j > 0 && pending[j].step is Begin),
    decreases pending.len() - j,
{
    if j < pending.len() {
        if !(j > 0 && pending[j].step is Begin) && !(pending[j].step is Finish || pending[j].step is Copy) {
            lemma_batch_end_bounds(pending, j + 1);
        }
    }
}

/// Release the next complete batch of waiting selection steps against the presented
/// `frame_revision`. A leading begin is rebased onto that revision; the batch stops
/// after a finish or copy and before a second begin.
pub fn take_deferred_selection<P>(
    pending: &mut VecDeque<DeferredSelection<P>>,
    frame_revision: u64,
) -> (batch: Vec<DeferredSelection<P>>)
    ensures
        batch@.len() == batch_end(old(pending)@),
        forall|i: int| 0 <= i < batch@.len() ==> #[trigger] batch@[i] == (if i == 0 {
            rebased(old(pending)@[i], frame_revision)
        } else {
            old(pending)@[i]
        }),
        final(pending)@ == old(pending)@.skip(batch_end(old(pending)@)),
{
    let ghost original = pending@;
    let mut batch: Vec<DeferredSelection<P>> = Vec::new();
    proof {
        lemma_batch_end_bounds(original, 0);
    }
    loop
        invariant_except_break
            0 <= batch@.len() <= original.len(),
            pending@ == original.skip(batch@.len() as int),
            batch_end(original) == batch_end_from(original, batch@.len() as int),
            forall|i: int| 0 <= i < batch@.len() ==> #[trigger] batch@[i] == (if i == 0 {
                rebased(original[i], frame_revision)
            } else {
                original[i]
            }),
        ensures
            batch@.len() == batch_end(original),
            pending@ == original.skip(batch@.len() as int),
            forall|i: int| 0 <= i < batch@.len() ==> #[trigger] batch@[i] == (if i == 0 {
                rebased(original[i], frame_revision)
            } else {
                original[i]
            }),
        decreases pending@.len(),
    {
        let ghost k = batch@.len() as int;
        match pending.pop_front() {
            None => {
                assert(original.skip(k).len() == 0);
                break;
            }
            Some(message) => {
                assert(message == original[k]);
                let mut message = message;
                if let SelectionStep::Begin { .. } = message.step {
                    if batch.len() > 0 {
                        pending.push_front(message);
                        assert(pending@ =~= original.skip(k));
                        break;
                    }
                    message = DeferredSelection {
                        step: SelectionStep::Begin { frame_revision },
                        gesture: message.gesture,
                    };
                }
                let finished = match message.step {
                    SelectionStep::Finish | SelectionStep::Copy => true,
                    _ => false,
                };
                batch.push(message);
                assert(pending@ =~= original.skip(k + 1));
                if finished {
                    break;
                }
            }
        }
    }
    batch
}

/// Queue one waiting step, refusing it when the bounded queue is full.
pub fn queue_deferred_selection<P>(
    pending: &mut VecDeque<DeferredSelection<P>>,
    message: DeferredSelection<P>,
) -> (queued: bool)
    ensures
        queued == (old(pending)@.len() < MAX_DEFERRED_SELECTION_MESSAGES),
        queued ==> final(pending)@ == old(pending)@.push(message),
        !queued ==> final(pending)@ == old(pending)@,
{
    if pending.len() >= MAX_DEFERRED_SELECTION_MESSAGES {
        return false;
    }
    pending.push_back(message);
    true
}

/// Whether the first gesture step found from `j` on leaves a server gesture open,
/// falling back to `selecting` when no gesture step waits.
pub open spec fn open_gesture_from<P>(pending: Seq<DeferredSelection<P>>, j: int, selecting: bool) -> bool
    decreases pending.len() - j,
{
    if j < 0 || j >= pending.len() {
        selecting
    } else {
        match pending[j].step {
            SelectionStep::Begin { .. } => false,
            SelectionStep::Update | SelectionStep::Finish => true,
            _ => open_gesture_from(pending, j + 1, selecting),
        }
    }
}

/// Whether cancelling the pointer sequence must also cancel a gesture Orbit already holds.
pub fn pointer_sequence_needs_cancel<P>(
    gate: &SelectionGate,
    selecting: bool,
    pending: &VecDeque<DeferredSelection<P>>,
) -> (cancel: bool)
    ensures
        cancel == (*gate == SelectionGate::AwaitingFinish || open_gesture_from(pending@, 0, selecting)),
{
    match *gate {
        SelectionGate::AwaitingFinish => return true,
        _ => {}
    }
    let mut j: usize = 0;
    while j < pending.len()
        invariant
            0 <= j <= pending@.len(),
            *gate != SelectionGate::AwaitingFinish,
            open_gesture_from(pending@, 0, selecting) == open_gesture_from(pending@, j as int, selecting),
        decreases pending@.len() - j,
    {
        match pending[j].step {
            SelectionStep::Begin { .. } => {
                assert(!open_gesture_from(pending@, j as int, selecting));
                return false;
            }
            SelectionStep::Update | SelectionStep::Finish => {
                assert(open_gesture_from(pending@, j as int, selecting));
                return true;
            }
            _ => {}
        }
        j = j + 1;
    }
    selecting
}

/// A copy needs no current presentation; other steps do.
pub fn selection_presentation_is_ready(step: SelectionStep, current: bool) -> (ready: bool)
    ensures
        ready == (current || step == SelectionStep::Copy),
{
    current || match step {
        SelectionStep::Copy => true,
        _ => false,
    }
}

/// Law: releasing the queue batch by batch preserves every waiting step in order:
/// the batch followed by what stays is the original queue, up to the rebased begin.
pub proof fn lemma_batches_partition_the_queue<P>(pending: Seq<DeferredSelection<P>>, frame_revision: u64)
    ensures
        0 <= batch_end(pending) <= pending.len(),
        pending.len() > 0 ==> batch_end(pending) > 0,
        pending.take(batch_end(pending)) + pending.skip(batch_end(pending)) =~= pending,
{
    lemma_batch_end_bounds(pending, 0);
}

/// A selection step is sent at once only when the presentation is ready for it,
/// nothing waits before it, and no earlier finish is outstanding; otherwise it
/// waits its turn.
pub fn sends_selection_now(presentation_ready: bool, deferred_empty: bool, gate: &SelectionGate) -> (now: bool)
    ensures
        now == (presentation_ready && deferred_empty && *gate == SelectionGate::Ready),
{
    presentation_ready && deferred_empty && match gate {
        SelectionGate::Ready => true,
        _ => false,
    }
}

/// Whether a released batch continues a gesture that Orbit already knows of: it
/// starts with an update or a finish.
pub fn batch_continues_server_gesture(first: Option<SelectionStep>) -> (continues: bool)
    ensures
        continues == (first == Some(SelectionStep::Update) || first == Some(SelectionStep::Finish)),
{
    match first {
        Some(SelectionStep::Update) | Some(SelectionStep::Finish) => true,
        _ => false,
    }
}

/// What follows one step of a released batch.
#[derive(Clone, Copy, Debug, PartialEq, Eq, Structural)]
pub enum FlushDecision {
    /// Go on with the next step; `finish_sent` when this step finished a gesture.
    Continue { server_gesture: bool, finish_sent: bool },
    /// The step could not be sent: drop the rest, end the local gesture, and tell
    /// Orbit to cancel where it knows of a gesture.
    Abort { send_cancel: bool },
}

pub open spec fn spec_flush_step(server_gesture: bool, step: SelectionStep, sent: bool) -> FlushDecision {
    if !sent {
        FlushDecision::Abort { send_cancel: server_gesture }
    } else {
        FlushDecision::Continue {
            server_gesture: server_gesture || step is Begin,
            finish_sent: step == SelectionStep::Finish,
        }
    }
}

/// The decision after trying to send one step of a released batch.
pub fn flush_step(server_gesture: bool, step: SelectionStep, sent: bool) -> (decision: FlushDecision)
    ensures
        decision == spec_flush_step(server_gesture, step, sent),
{
    if !sent {
        return FlushDecision::Abort { send_cancel: server_gesture };
    }
    let begins = match step {
        SelectionStep::Begin { .. } => true,
        _ => false,
    };
    FlushDecision::Continue { server_gesture: server_gesture || begins, finish_sent: step == SelectionStep::Finish }
}

} // verus!
