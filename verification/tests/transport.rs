use yazelix_venus::queue::EventClass;
use yazelix_venus::transport::{
    event_class, io_loss, protocol_loss, socket_loss, SendError, SessionError, SocketErrorKind, TransportEvent,
};

type Event = TransportEvent<u8>;

#[test]
fn local_failures_name_their_owner() {
    assert_eq!(SendError::Full.message(), "Venus input queue is full");
    assert_eq!(SendError::Closed.message(), "Venus input channel is closed");
    let event: Event = io_loss("socket reset", SocketErrorKind::ConnectionReset);
    assert_eq!(event, TransportEvent::RetryableLoss("Cannot read from Orbit: socket reset".into()));
    assert!(matches!(
        protocol_loss::<u8>(SessionError::Invalid("invalid magic".into())),
        TransportEvent::Lost(_)
    ));
    assert_eq!(
        protocol_loss::<u8>(SessionError::UnsupportedVersion { version: 3 }),
        TransportEvent::Incompatible { version: 3 }
    );
    assert!(matches!(socket_loss::<u8>("missing".into(), SocketErrorKind::NotFound), TransportEvent::RetryableLoss(_)));
    assert!(matches!(socket_loss::<u8>("resource".into(), SocketErrorKind::Other), TransportEvent::Lost(_)));
}

#[test]
fn every_departure_kind_is_retryable_and_nothing_else() {
    for kind in [
        SocketErrorKind::NotFound,
        SocketErrorKind::ConnectionRefused,
        SocketErrorKind::ConnectionReset,
        SocketErrorKind::ConnectionAborted,
        SocketErrorKind::NotConnected,
        SocketErrorKind::BrokenPipe,
        SocketErrorKind::TimedOut,
        SocketErrorKind::Interrupted,
        SocketErrorKind::UnexpectedEof,
        SocketErrorKind::WriteZero,
    ] {
        assert_eq!(socket_loss::<u8>("gone".into(), kind), TransportEvent::RetryableLoss("gone".into()));
    }
    assert_eq!(socket_loss::<u8>("denied".into(), SocketErrorKind::Other), TransportEvent::Lost("denied".into()));
    assert_eq!(
        io_loss::<u8>("permission denied", SocketErrorKind::Other),
        TransportEvent::Lost("Cannot read from Orbit: permission denied".into())
    );
}

#[test]
fn invalid_messages_are_described() {
    assert_eq!(
        protocol_loss::<u8>(SessionError::Invalid("bad header".into())),
        TransportEvent::Lost("Orbit sent an invalid local-session message: bad header".into())
    );
}

#[test]
fn losses_are_the_last_queued_event() {
    let frame = EventClass::Frame { revision: 4 };
    assert_eq!(event_class::<u8>(&TransportEvent::Server(1), frame), frame);
    assert_eq!(event_class::<u8>(&TransportEvent::InvalidInput("x".into()), frame), EventClass::Other);
    assert_eq!(event_class::<u8>(&TransportEvent::Lost("x".into()), frame), EventClass::Final);
    assert_eq!(event_class::<u8>(&TransportEvent::RetryableLoss("x".into()), frame), EventClass::Final);
    assert_eq!(event_class::<u8>(&TransportEvent::Incompatible { version: 2 }, frame), EventClass::Final);
}
