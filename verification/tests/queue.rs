use yazelix_venus::queue::{
    Delivered, EventClass, EventQueue, LatestEvent, WorkspaceEventQueue, EVENT_QUEUE_CAPACITY, WORKSPACE_EVENT_CAPACITY,
};

/// A queued transport event as the tests name it.
#[derive(Clone, Debug, PartialEq)]
enum Msg {
    Frame(u64),
    WheelFrame(u64),
    ScrollFrame(u64),
    Accepted,
    TerminalRouted,
    InvalidInput,
    Lost,
    LostWith(&'static str),
    RetryableLoss,
    Busy,
    Incompatible(u16),
}

fn class(msg: &Msg) -> EventClass {
    match msg {
        Msg::Frame(revision) | Msg::WheelFrame(revision) => EventClass::Frame { revision: *revision },
        Msg::ScrollFrame(revision) => EventClass::ScrollOutcome { revision: Some(*revision) },
        Msg::Accepted | Msg::TerminalRouted => EventClass::Transparent,
        Msg::InvalidInput => EventClass::Other,
        Msg::Lost | Msg::LostWith(_) | Msg::RetryableLoss | Msg::Busy | Msg::Incompatible(_) => EventClass::Final,
    }
}

fn push(queue: &mut EventQueue<Msg>, msg: Msg) -> bool {
    let class = class(&msg);
    queue.push(msg, class, 0)
}

fn push_bytes(queue: &mut EventQueue<Msg>, msg: Msg, bytes: usize) -> bool {
    let class = class(&msg);
    queue.push(msg, class, bytes)
}

fn events(delivered: Vec<Delivered<Msg>>) -> Vec<Msg> {
    delivered
        .into_iter()
        .map(|delivered| match delivered {
            Delivered::Event(msg) => msg,
            Delivered::Overflow => Msg::Lost,
        })
        .collect()
}

#[test]
fn frame_reduction_preserves_message_and_revision_order() {
    let mut queue = EventQueue::new(1 << 20);
    assert!(push(&mut queue, Msg::Frame(1)));
    assert!(!push(&mut queue, Msg::Accepted));
    assert!(!push(&mut queue, Msg::WheelFrame(2)));
    assert!(!push(&mut queue, Msg::InvalidInput));
    assert!(!push(&mut queue, Msg::Frame(3)));
    assert!(!push(&mut queue, Msg::Frame(4)));
    assert_eq!(events(queue.drain()), [Msg::Accepted, Msg::WheelFrame(2), Msg::InvalidInput, Msg::Frame(4)]);

    assert!(push(&mut queue, Msg::Frame(9)));
    assert!(!push(&mut queue, Msg::ScrollFrame(10)));
    assert_eq!(events(queue.drain()), [Msg::ScrollFrame(10)]);

    assert!(push(&mut queue, Msg::ScrollFrame(11)));
    assert!(!push(&mut queue, Msg::Frame(12)));
    assert_eq!(events(queue.drain()), [Msg::ScrollFrame(11), Msg::Frame(12)]);

    assert!(push(&mut queue, Msg::Frame(3)));
    assert!(!push(&mut queue, Msg::Frame(5)));
    assert_eq!(events(queue.drain()), [Msg::Frame(3), Msg::Frame(5)]);

    assert!(push(&mut queue, Msg::Frame(6)));
    assert!(!push(&mut queue, Msg::Frame(5)));
    assert_eq!(events(queue.drain()), [Msg::Frame(6), Msg::Frame(5)]);

    assert!(push(&mut queue, Msg::Frame(13)));
    assert!(!push(&mut queue, Msg::TerminalRouted));
    assert!(!push(&mut queue, Msg::WheelFrame(14)));
    assert_eq!(events(queue.drain()), [Msg::TerminalRouted, Msg::WheelFrame(14)]);
}

#[test]
fn event_queue_bytes_are_bounded_replaced_and_reset() {
    const BYTE_CAPACITY: usize = 10;
    let mut queue = EventQueue::new(BYTE_CAPACITY);
    assert!(push_bytes(&mut queue, Msg::Frame(1), 6));
    assert!(!push_bytes(&mut queue, Msg::Accepted, 1));
    assert!(!push_bytes(&mut queue, Msg::Frame(2), 9));
    assert_eq!(queue.retained_bytes, BYTE_CAPACITY);
    assert_eq!(events(queue.drain()), [Msg::Accepted, Msg::Frame(2)]);
    assert_eq!(queue.retained_bytes, 0);

    assert!(push_bytes(&mut queue, Msg::Accepted, BYTE_CAPACITY));
    assert!(!push_bytes(&mut queue, Msg::Accepted, 1));
    assert_eq!(queue.drain(), vec![Delivered::Overflow]);
    assert_eq!(queue.retained_bytes, 0);
    assert!(!push_bytes(&mut queue, Msg::Accepted, 1));
}

#[test]
fn decoded_frame_queue_is_bounded() {
    let mut queue = EventQueue::new(1 << 20);
    for _ in 0..EVENT_QUEUE_CAPACITY {
        push(&mut queue, Msg::InvalidInput);
    }
    assert!(!push(&mut queue, Msg::InvalidInput));
    assert_eq!(queue.drain(), vec![Delivered::Overflow]);
    assert!(!push(&mut queue, Msg::InvalidInput));
    assert!(queue.drain().is_empty());
}

#[test]
fn only_two_frames_wait_at_once() {
    let mut queue = EventQueue::new(1 << 20);
    assert!(push(&mut queue, Msg::ScrollFrame(1)));
    assert!(!push(&mut queue, Msg::Frame(2)));
    assert!(!push(&mut queue, Msg::InvalidInput));
    assert!(!push(&mut queue, Msg::Frame(3)));
    assert_eq!(queue.drain(), vec![Delivered::Overflow]);
}

#[test]
fn first_terminal_loss_is_the_final_transport_event() {
    let mut queue = EventQueue::new(1 << 20);
    assert!(push(&mut queue, Msg::LostWith("writer failed")));
    assert!(!push(&mut queue, Msg::LostWith("socket closed")));
    assert!(!push(&mut queue, Msg::InvalidInput));
    assert!(!push(&mut queue, Msg::Accepted));
    assert_eq!(events(queue.drain()), [Msg::LostWith("writer failed")]);

    const HEADER_BYTES: usize = 16;
    let mut queue = EventQueue::new(1 << 20);
    assert!(push_bytes(&mut queue, Msg::Busy, HEADER_BYTES));
    assert!(!push(&mut queue, Msg::RetryableLoss));
    assert_eq!(queue.retained_bytes, HEADER_BYTES);
    assert_eq!(events(queue.drain()), [Msg::Busy]);
    assert_eq!(queue.retained_bytes, 0);

    let mut queue = EventQueue::new(1 << 20);
    assert!(push(&mut queue, Msg::Incompatible(3)));
    assert!(!push(&mut queue, Msg::Accepted));
    assert_eq!(events(queue.drain()), [Msg::Incompatible(3)]);
}

#[test]
fn workspace_events_overflow_into_one_loss() {
    let mut queue = WorkspaceEventQueue::new();
    assert!(queue.push(0u32));
    for value in 1..WORKSPACE_EVENT_CAPACITY as u32 {
        assert!(!queue.push(value));
    }
    assert!(!queue.push(99));
    assert_eq!(queue.drain(), vec![Delivered::Overflow]);
    assert!(queue.push(7));
    assert_eq!(queue.drain(), vec![Delivered::Event(7)]);
}

#[test]
fn metadata_observer_keeps_only_the_latest_observation() {
    let mut latest = LatestEvent::new();
    assert!(latest.push("first"));
    assert!(!latest.push("second"));
    assert_eq!(latest.take(), Some("second"));
    assert_eq!(latest.take(), None);
    assert!(latest.push("third"));
}
