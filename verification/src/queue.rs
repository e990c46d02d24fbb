//! Bounded hand-off of decoded Orbit events from the reader to the native event loop.
//!
//! Consecutive complete frames collapse to the newest one; every other event keeps its
//! place. A queue that exceeds its event, frame or byte bound stops with one overflow
//! loss, and the first terminal event is the last one it accepts.

use vstd::prelude::*;
use std::collections::VecDeque;

verus! {

/// Most events waiting for the event loop.
pub const EVENT_QUEUE_CAPACITY: usize = 256;
/// Most complete frames waiting for the event loop.
pub const FRAME_QUEUE_CAPACITY: usize = 2;

/// What the queue needs to know of a transport event.
#[derive(Clone, Copy, Debug, PartialEq, Eq, Structural)]
pub enum EventClass {
    /// A complete frame, alone or as a wheel outcome that moved the viewport.
    Frame { revision: u64 },
    /// A scroll outcome; a viewport scroll carries a frame.
    ScrollOutcome { revision: Option<u64> },
    /// An acknowledgement that a frame may be collapsed across.
    Transparent,
    /// A terminal event: loss, incompatibility, busy or exit.
    Final,
    /// Anything else.
    Other,
}

/// The frame revision an event carries.
pub open spec fn spec_frame_revision(class: EventClass) -> Option<u64> {
    match class {
        EventClass::Frame { revision } => Some(revision),
        EventClass::ScrollOutcome { revision } => revision,
        _ => None,
    }
}

pub fn frame_revision(class: EventClass) -> (revision: Option<u64>)
    ensures
        revision == spec_frame_revision(class),
{
    match class {
        EventClass::Frame { revision } => Some(revision),
        EventClass::ScrollOutcome { revision } => revision,
        _ => None,
    }
}

/// One waiting event, or the loss that replaced an overflowing queue.
#[derive(Debug, PartialEq)]
pub enum Delivered<E> {
    Event(E),
    Overflow,
}

/// One waiting entry with its class and its encoded size.
#[derive(Debug)]
pub struct Queued<E> {
    pub delivered: Delivered<E>,
    pub class: EventClass,
    pub framed_bytes: usize,
}

/// The classes and sizes of waiting entries.
pub open spec fn shape<E>(events: Seq<Queued<E>>) -> Seq<(EventClass, usize)> {
    events.map_values(|queued: Queued<E>| (queued.class, queued.framed_bytes))
}

/// The bytes that waiting entries hold.
pub open spec fn total_bytes(shape: Seq<(EventClass, usize)>) -> int
    decreases shape.len(),
{
    if shape.len() == 0 { 0 } else { total_bytes(shape.drop_last()) + shape.last().1 }
}

/// How many waiting entries carry a frame.
pub open spec fn frame_count(shape: Seq<(EventClass, usize)>) -> int
    decreases shape.len(),
{
    if shape.len() == 0 {
        0
    } else {
        frame_count(shape.drop_last()) + if spec_frame_revision(shape.last().0) is Some { 1int } else { 0int }
    }
}

/// The newest frame revision among the first `n` entries and `high_water`.
pub open spec fn max_revision(shape: Seq<(EventClass, usize)>, n: int, high_water: Option<u64>) -> Option<u64>
    decreases n,
{
    if n <= 0 || n > shape.len() {
        high_water
    } else {
        let before = max_revision(shape, n - 1, high_water);
        match spec_frame_revision(shape[n - 1].0) {
            None => before,
            Some(revision) => match before {
                None => Some(revision),
                Some(previous) => Some(if revision > previous { revision } else { previous }),
            },
        }
    }
}

/// The waiting frame that an incoming frame of `revision` replaces, scanning back from
/// `index`: acknowledgements are crossed, anything else but a frame ends the scan,
/// and the frame found is replaced only when the incoming one is newer and it is
/// itself newer than every earlier frame.
pub open spec fn replaced_index(shape: Seq<(EventClass, usize)>, high_water: Option<u64>, revision: u64, index: int) -> Option<int>
    decreases index + 1,
{
    if index < 0 || index >= shape.len() {
        None
    } else {
        match shape[index].0 {
            EventClass::Transparent => replaced_index(shape, high_water, revision, index - 1),
            EventClass::ScrollOutcome { .. } => None,
            class => match spec_frame_revision(class) {
                None => None,
                Some(queued) => if revision > queued && (match max_revision(shape, index, high_water) {
                    None => true,
                    Some(previous) => queued > previous,
                }) {
                    Some(index)
                } else {
                    None
                },
            },
        }
    }
}

/// The waiting frame an incoming event replaces.
pub open spec fn replacement(shape: Seq<(EventClass, usize)>, high_water: Option<u64>, class: EventClass) -> Option<int> {
    match spec_frame_revision(class) {
        None => None,
        Some(revision) => replaced_index(shape, high_water, revision, shape.len() - 1),
    }
}

/// Events waiting for the event loop.
#[derive(Debug)]
pub struct EventQueue<E> {
    pub events: VecDeque<Queued<E>>,
    pub retained_bytes: usize,
    pub byte_capacity: usize,
    /// The newest frame revision already handed to the event loop.
    pub delivered_frame_high_water: Option<u64>,
    /// Set by the first terminal event or overflow; nothing is accepted afterwards.
    pub stopped: bool,
}

impl<E> EventQueue<E> {
    /// Bytes, events and frames stay within their bounds.
    pub open spec fn wf(&self) -> bool {
        &&& self.retained_bytes as int == total_bytes(shape(self.events@))
        &&& self.retained_bytes <= self.byte_capacity
        &&& self.byte_capacity < usize::MAX
        &&& self.events@.len() <= EVENT_QUEUE_CAPACITY
        &&& frame_count(shape(self.events@)) <= FRAME_QUEUE_CAPACITY
    }

    /// An empty queue that holds at most `byte_capacity` encoded bytes.
    pub fn new(byte_capacity: usize) -> (queue: Self)
        requires
            byte_capacity < usize::MAX,
        ensures
            queue.wf(),
            queue.events@.len() == 0,
            queue.byte_capacity == byte_capacity,
            queue.delivered_frame_high_water is None,
            !queue.stopped,
    {
        EventQueue {
            events: VecDeque::new(),
            retained_bytes: 0,
            byte_capacity,
            delivered_frame_high_water: None,
            stopped: false,
        }
    }
}

proof fn lemma_replaced_in_range(shape: Seq<(EventClass, usize)>, high_water: Option<u64>, revision: u64, index: int)
    ensures
        replaced_index(shape, high_water, revision, index) matches Some(r) ==> 0 <= r <= index && r < shape.len()
            && spec_frame_revision(shape[r].0) is Some,
    decreases index + 1,
{
    if 0 <= index < shape.len() {
        lemma_replaced_in_range(shape, high_water, revision, index - 1);
    }
}

proof fn lemma_total_bytes_append(a: Seq<(EventClass, usize)>, b: Seq<(EventClass, usize)>)
    ensures
        total_bytes(a + b) == total_bytes(a) + total_bytes(b),
        frame_count(a + b) == frame_count(a) + frame_count(b),
    decreases b.len(),
{
    if b.len() == 0 {
        assert(a + b =~= a);
    } else {
        lemma_total_bytes_append(a, b.drop_last());
        assert((a + b).drop_last() =~= a + b.drop_last());
    }
}

proof fn lemma_nonnegative(a: Seq<(EventClass, usize)>)
    ensures
        total_bytes(a) >= 0,
        frame_count(a) >= 0,
        frame_count(a) <= a.len(),
    decreases a.len(),
{
    if a.len() > 0 {
        lemma_nonnegative(a.drop_last());
    }
}

proof fn lemma_remove_one(a: Seq<(EventClass, usize)>, r: int)
    requires
        0 <= r < a.len(),
    ensures
        total_bytes(a.remove(r)) == total_bytes(a) - a[r].1,
        frame_count(a.remove(r)) == frame_count(a) - (if spec_frame_revision(a[r].0) is Some { 1int } else { 0int }),
{
    let single = seq![a[r]];
    assert(a =~= a.take(r) + single + a.skip(r + 1));
    assert(a.remove(r) =~= a.take(r) + a.skip(r + 1));
    lemma_total_bytes_append(a.take(r) + single, a.skip(r + 1));
    lemma_total_bytes_append(a.take(r), single);
    lemma_total_bytes_append(a.take(r), a.skip(r + 1));
    assert(single.drop_last() =~= Seq::<(EventClass, usize)>::empty());
    assert(total_bytes(Seq::<(EventClass, usize)>::empty()) == 0);
    assert(frame_count(Seq::<(EventClass, usize)>::empty()) == 0);
    assert(total_bytes(single) == a[r].1);
    assert(frame_count(single) == (if spec_frame_revision(a[r].0) is Some { 1int } else { 0int }));
}

proof fn lemma_push_one(a: Seq<(EventClass, usize)>, item: (EventClass, usize))
    ensures
        total_bytes(a.push(item)) == total_bytes(a) + item.1,
        frame_count(a.push(item)) == frame_count(a) + (if spec_frame_revision(item.0) is Some { 1int } else { 0int }),
{
    assert(a.push(item).drop_last() =~= a);
}

impl<E> EventQueue<E> {
    fn max_revision_before(&self, n: usize) -> (newest: Option<u64>)
        requires
            n <= self.events@.len(),
        ensures
            newest == max_revision(shape(self.events@), n as int, self.delivered_frame_high_water),
    {
        let ghost sh = shape(self.events@);
        let mut newest = self.delivered_frame_high_water;
        let mut i: usize = 0;
        while i < n
            invariant
                i <= n <= self.events@.len(),
                sh == shape(self.events@),
                newest == max_revision(sh, i as int, self.delivered_frame_high_water),
            decreases n - i,
        {
            match frame_revision(self.events[i].class) {
                None => {}
                Some(revision) => {
                    newest = match newest {
                        None => Some(revision),
                        Some(previous) => Some(if revision > previous { revision } else { previous }),
                    };
                }
            }
            i = i + 1;
        }
        newest
    }

    fn find_replacement(&self, class: EventClass) -> (index: Option<usize>)
        ensures
            index is None <==> replacement(shape(self.events@), self.delivered_frame_high_water, class) is None,
            index matches Some(i) ==> replacement(shape(self.events@), self.delivered_frame_high_water, class) == Some(i as int),
            index matches Some(r) ==> r < self.events@.len()
                && spec_frame_revision(shape(self.events@)[r as int].0) is Some,
    {
        let ghost sh = shape(self.events@);
        proof {
            if let Some(revision) = spec_frame_revision(class) {
                lemma_replaced_in_range(sh, self.delivered_frame_high_water, revision, sh.len() - 1);
            }
        }
        let revision = match frame_revision(class) {
            None => return None,
            Some(revision) => revision,
        };
        let mut i = self.events.len();
        while i > 0
            invariant
                i <= self.events@.len(),
                sh == shape(self.events@),
                spec_frame_revision(class) == Some(revision),
                replacement(sh, self.delivered_frame_high_water, class)
                    == replaced_index(sh, self.delivered_frame_high_water, revision, i - 1),
            decreases i,
        {
            let index = i - 1;
            match self.events[index].class {
                EventClass::Transparent => {}
                EventClass::ScrollOutcome { .. } => return None,
                queued_class => {
                    let queued = match frame_revision(queued_class) {
                        None => return None,
                        Some(queued) => queued,
                    };
                    let previous = self.max_revision_before(index);
                    let newer_than_previous = match previous {
                        None => true,
                        Some(previous) => queued > previous,
                    };
                    if revision > queued && newer_than_previous {
                        return Some(index);
                    }
                    return None;
                }
            }
            i = index;
        }
        None
    }

    fn count_frames(&self) -> (count: usize)
        ensures
            count as int == frame_count(shape(self.events@)),
    {
        let ghost sh = shape(self.events@);
        let mut count: usize = 0;
        let mut i: usize = 0;
        while i < self.events.len()
            invariant
                i <= self.events@.len(),
                sh == shape(self.events@),
                count as int == frame_count(sh.take(i as int)),
                count <= i,
            decreases self.events@.len() - i,
        {
            proof {
                assert(sh.take(i + 1).drop_last() =~= sh.take(i as int));
            }
            match frame_revision(self.events[i].class) {
                Some(_) => count = count + 1,
                None => {}
            }
            i = i + 1;
        }
        assert(sh.take(self.events@.len() as int) =~= sh);
        count
    }
}

/// Whether pushing an event of `class` and `framed_bytes` overflows a queue.
pub open spec fn overflows<E>(queue: EventQueue<E>, class: EventClass, framed_bytes: usize) -> bool {
    let sh = shape(queue.events@);
    let replaced = replacement(sh, queue.delivered_frame_high_water, class);
    let replaced_bytes: int = match replaced {
        Some(r) => sh[r].1 as int,
        None => 0,
    };
    ||| queue.retained_bytes - replaced_bytes + framed_bytes > queue.byte_capacity
    ||| (replaced is None && (queue.events@.len() == EVENT_QUEUE_CAPACITY
        || (spec_frame_revision(class) is Some && frame_count(sh) == FRAME_QUEUE_CAPACITY)))
}

impl<E> EventQueue<E> {
    /// Queue one decoded event of `framed_bytes` encoded bytes. Returns whether the
    /// event loop must be woken (the queue was empty).
    pub fn push(&mut self, event: E, class: EventClass, framed_bytes: usize) -> (wake: bool)
        requires
            old(self).wf(),
        ensures
            final(self).wf(),
            final(self).byte_capacity == old(self).byte_capacity,
            final(self).delivered_frame_high_water == old(self).delivered_frame_high_water,
            old(self).stopped ==> !wake && *final(self) == *old(self),
            !old(self).stopped ==> wake == (old(self).events@.len() == 0),
            !old(self).stopped && overflows(*old(self), class, framed_bytes) ==> {
                &&& final(self).stopped
                &&& final(self).events@ == seq![Queued::<E> { delivered: Delivered::Overflow, class: EventClass::Final, framed_bytes: 0 }]
            },
            !old(self).stopped && !overflows(*old(self), class, framed_bytes) ==> {
                let kept = match replacement(shape(old(self).events@), old(self).delivered_frame_high_water, class) {
                    Some(r) => old(self).events@.remove(r),
                    None => old(self).events@,
                };
                &&& final(self).events@ == kept.push(Queued { delivered: Delivered::Event(event), class, framed_bytes })
                &&& final(self).stopped == (class is Final)
            },
    {
        if self.stopped {
            return false;
        }
        let ghost sh = shape(self.events@);
        let replaced = self.find_replacement(class);
        let wake = self.events.len() == 0;
        let replaced_bytes = match replaced {
            Some(index) => {
                assert(sh[index as int] == (self.events@[index as int].class, self.events@[index as int].framed_bytes));
                self.events[index].framed_bytes
            }
            None => 0,
        };
        proof {
            if let Some(r) = replaced {
                lemma_remove_one(sh, r as int);
                lemma_nonnegative(sh.remove(r as int));
            }
            lemma_nonnegative(sh);
        }
        let remaining = self.retained_bytes - replaced_bytes;
        let retained_bytes = remaining.saturating_add(framed_bytes);
        let too_many = match replaced {
            Some(_) => false,
            None => self.events.len() == EVENT_QUEUE_CAPACITY || (match frame_revision(class) {
                Some(_) => self.count_frames() == FRAME_QUEUE_CAPACITY,
                None => false,
            }),
        };
        assert(replaced_bytes as int == match replacement(sh, self.delivered_frame_high_water, class) {
            Some(r) => sh[r].1 as int,
            None => 0int,
        });
        assert(remaining as int == self.retained_bytes - replaced_bytes);
        assert(retained_bytes > self.byte_capacity <==> remaining + framed_bytes > self.byte_capacity);
        assert(too_many == (replacement(sh, self.delivered_frame_high_water, class) is None && (self.events@.len() == EVENT_QUEUE_CAPACITY
            || (spec_frame_revision(class) is Some && frame_count(sh) == FRAME_QUEUE_CAPACITY))));
        if retained_bytes > self.byte_capacity || too_many {
            self.events = VecDeque::new();
            self.retained_bytes = 0;
            self.events.push_back(Queued { delivered: Delivered::Overflow, class: EventClass::Final, framed_bytes: 0 });
            self.stopped = true;
            proof {
                assert(self.events@ =~= seq![Queued::<E> { delivered: Delivered::Overflow, class: EventClass::Final, framed_bytes: 0 }]);
                lemma_push_one(Seq::empty(), (EventClass::Final, 0usize));
                assert(shape(self.events@) =~= Seq::<(EventClass, usize)>::empty().push((EventClass::Final, 0usize)));
            }
            return wake;
        }
        let ghost before = self.events@;
        match replaced {
            Some(index) => {
                self.events.remove(index);
                proof {
                    assert(shape(self.events@) =~= sh.remove(index as int));
                }
            }
            None => {}
        }
        let ghost kept = self.events@;
        self.stopped = match class {
            EventClass::Final => true,
            _ => false,
        };
        self.retained_bytes = retained_bytes;
        self.events.push_back(Queued { delivered: Delivered::Event(event), class, framed_bytes });
        proof {
            assert(shape(self.events@) =~= shape(kept).push((class, framed_bytes)));
            lemma_push_one(shape(kept), (class, framed_bytes));
        }
        wake
    }
}

/// The delivered entries, in queue order.
pub open spec fn delivered_view<E>(events: Seq<Queued<E>>) -> Seq<Delivered<E>> {
    events.map_values(|queued: Queued<E>| queued.delivered)
}

impl<E> EventQueue<E> {
    /// Hand every waiting entry to the event loop, in order, and remember the newest
    /// frame revision delivered.
    pub fn drain(&mut self) -> (delivered: Vec<Delivered<E>>)
        requires
            old(self).wf(),
        ensures
            final(self).wf(),
            delivered@ == delivered_view(old(self).events@),
            final(self).events@.len() == 0,
            final(self).delivered_frame_high_water == max_revision(
                shape(old(self).events@), old(self).events@.len() as int, old(self).delivered_frame_high_water),
            final(self).stopped == old(self).stopped,
            final(self).byte_capacity == old(self).byte_capacity,
    {
        let ghost original = self.events@;
        let high_water = self.max_revision_before(self.events.len());
        let mut delivered: Vec<Delivered<E>> = Vec::new();
        let ghost capacity = self.byte_capacity;
        let ghost stopped = self.stopped;
        while self.events.len() > 0
            invariant
                self.byte_capacity == capacity,
                self.stopped == stopped,
                capacity < usize::MAX,
                delivered@.len() + self.events@.len() == original.len(),
                self.events@ == original.skip(delivered@.len() as int),
                delivered@ == delivered_view(original).take(delivered@.len() as int),
            decreases self.events@.len(),
        {
            let ghost k = delivered@.len() as int;
            match self.events.pop_front() {
                Some(queued) => {
                    assert(queued == original[k]);
                    delivered.push(queued.delivered);
                    assert(delivered@ =~= delivered_view(original).take(k + 1));
                    assert(self.events@ =~= original.skip(k + 1));
                }
                None => {}
            }
        }
        assert(delivered@ =~= delivered_view(original));
        self.delivered_frame_high_water = high_water;
        self.retained_bytes = 0;
        proof {
            assert(shape(self.events@) =~= Seq::<(EventClass, usize)>::empty());
        }
        delivered
    }
}

/// Law: a frame followed by a newer frame collapses to the newer one. When the
/// newest waiting entry is a frame newer than every earlier frame, an incoming newer
/// frame replaces exactly that entry.
pub proof fn lemma_newer_frame_replaces_latest(
    shape: Seq<(EventClass, usize)>,
    high_water: Option<u64>,
    waiting: u64,
    bytes: usize,
    incoming: u64,
)
    requires
        incoming > waiting,
        match max_revision(shape, shape.len() as int, high_water) {
            None => true,
            Some(previous) => waiting > previous,
        },
    ensures
        replacement(shape.push((EventClass::Frame { revision: waiting }, bytes)), high_water,
            EventClass::Frame { revision: incoming }) == Some(shape.len() as int),
{
    let extended = shape.push((EventClass::Frame { revision: waiting }, bytes));
    assert forall|n: int| 0 <= n <= shape.len() implies max_revision(extended, n, high_water)
        == max_revision(shape, n, high_water) by {
        lemma_max_revision_prefix(shape, extended, n, high_water);
    }
}

proof fn lemma_max_revision_prefix(
    shape: Seq<(EventClass, usize)>,
    extended: Seq<(EventClass, usize)>,
    n: int,
    high_water: Option<u64>,
)
    requires
        0 <= n <= shape.len() <= extended.len(),
        forall|i: int| 0 <= i < shape.len() ==> extended[i] == shape[i],
    ensures
        max_revision(extended, n, high_water) == max_revision(shape, n, high_water),
    decreases n,
{
    if n > 0 {
        lemma_max_revision_prefix(shape, extended, n - 1, high_water);
    }
}

/// Most events waiting on the Eon workspace boundary.
pub const WORKSPACE_EVENT_CAPACITY: usize = 64;

/// Events from the Eon workspace worker, replaced by one overflow when they pile up.
#[derive(Debug)]
pub struct WorkspaceEventQueue<E> {
    pub events: VecDeque<Delivered<E>>,
}

impl<E> WorkspaceEventQueue<E> {
    pub fn new() -> (queue: Self)
        ensures
            queue.events@.len() == 0,
    {
        WorkspaceEventQueue { events: VecDeque::new() }
    }

    /// Queue one event. Returns whether the event loop must be woken.
    pub fn push(&mut self, event: E) -> (wake: bool)
        requires
            old(self).events@.len() <= WORKSPACE_EVENT_CAPACITY,
        ensures
            final(self).events@.len() <= WORKSPACE_EVENT_CAPACITY,
            wake == (old(self).events@.len() == 0),
            old(self).events@.len() == WORKSPACE_EVENT_CAPACITY ==> final(self).events@ == seq![Delivered::<E>::Overflow],
            old(self).events@.len() < WORKSPACE_EVENT_CAPACITY ==> final(self).events@ == old(self).events@.push(Delivered::Event(event)),
    {
        let wake = self.events.len() == 0;
        if self.events.len() == WORKSPACE_EVENT_CAPACITY {
            self.events = VecDeque::new();
            self.events.push_back(Delivered::Overflow);
            assert(self.events@ =~= seq![Delivered::<E>::Overflow]);
        } else {
            self.events.push_back(Delivered::Event(event));
        }
        wake
    }

    /// Hand every waiting event to the event loop, in order.
    pub fn drain(&mut self) -> (events: Vec<Delivered<E>>)
        ensures
            events@ == old(self).events@,
            final(self).events@.len() == 0,
    {
        let ghost original = self.events@;
        let mut events: Vec<Delivered<E>> = Vec::new();
        while self.events.len() > 0
            invariant
                events@ + self.events@ == original,
            decreases self.events@.len(),
        {
            let ghost before = self.events@;
            match self.events.pop_front() {
                Some(event) => {
                    events.push(event);
                    assert(events@ + self.events@ =~= original);
                }
                None => {}
            }
        }
        assert(events@ =~= original);
        events
    }
}

/// The newest metadata observation, replacing any that was not yet taken.
#[derive(Debug)]
pub struct LatestEvent<E> {
    pub pending: Option<E>,
}

impl<E> LatestEvent<E> {
    pub fn new() -> (latest: Self)
        ensures
            latest.pending is None,
    {
        LatestEvent { pending: None }
    }

    /// Keep only `event`. Returns whether the event loop must be woken.
    pub fn push(&mut self, event: E) -> (wake: bool)
        ensures
            wake == old(self).pending is None,
            final(self).pending == Some(event),
    {
        let wake = self.pending.is_none();
        self.pending = Some(event);
        wake
    }

    /// Take the newest observation.
    pub fn take(&mut self) -> (event: Option<E>)
        ensures
            event == old(self).pending,
            final(self).pending is None,
    {
        self.pending.take()
    }
}

} // verus!
