//! How local-session transport failures reach the event loop: which socket
//! failures may be retried, which end the session, and what each is called.

use vstd::prelude::*;
use crate::queue::EventClass;
use vstd::string::StringExecFns;

verus! {

/// A semantic event could not enter the bounded transport queue.
#[derive(Clone, Copy, Debug, PartialEq, Eq, Structural)]
pub enum SendError {
    Full,
    Closed,
}

impl SendError {
    pub open spec fn spec_message(self) -> Seq<char> {
        match self {
            SendError::Full => "Venus input queue is full"@,
            SendError::Closed => "Venus input channel is closed"@,
        }
    }

    /// What the user is told of this failure.
    pub fn message(self) -> (message: &'static str)
        ensures
            message@ == self.spec_message(),
    {
        match self {
            SendError::Full => "Venus input queue is full",
            SendError::Closed => "Venus input channel is closed",
        }
    }
}

/// Events delivered from the local-session worker to the native event loop; `S`
/// is a decoded server message.
#[derive(Clone, Debug, PartialEq)]
pub enum TransportEvent<S> {
    Server(S),
    Incompatible { version: u16 },
    InvalidInput(String),
    RetryableLoss(String),
    Lost(String),
}

/// The kind of a socket failure, as far as retrying distinguishes it.
#[derive(Clone, Copy, Debug, PartialEq, Eq, Structural)]
pub enum SocketErrorKind {
    NotFound,
    ConnectionRefused,
    ConnectionReset,
    ConnectionAborted,
    NotConnected,
    BrokenPipe,
    TimedOut,
    Interrupted,
    UnexpectedEof,
    WriteZero,
    /// Any other kind, such as running out of memory or a refused permission.
    Other,
}

/// A failure that a later attempt may not repeat: the socket is missing or went
/// away, or the exchange was cut short.
pub open spec fn is_retryable_kind(kind: SocketErrorKind) -> bool {
    kind != SocketErrorKind::Other
}

/// A socket failure becomes a retryable loss where a later attempt may succeed,
/// and a final loss otherwise; either way it carries `detail`.
pub fn socket_loss<S>(detail: String, kind: SocketErrorKind) -> (event: TransportEvent<S>)
    ensures
        match event {
            TransportEvent::RetryableLoss(d) => is_retryable_kind(kind) && d@ == detail@,
            TransportEvent::Lost(d) => !is_retryable_kind(kind) && d@ == detail@,
            _ => false,
        },
{
    match kind {
        SocketErrorKind::Other => TransportEvent::Lost(detail),
        _ => TransportEvent::RetryableLoss(detail),
    }
}

/// A failed read from Orbit, named by the error's own text.
pub fn io_loss<S>(error: &str, kind: SocketErrorKind) -> (event: TransportEvent<S>)
    ensures
        match event {
            TransportEvent::RetryableLoss(d) => is_retryable_kind(kind) && d@ == "Cannot read from Orbit: "@ + error@,
            TransportEvent::Lost(d) => !is_retryable_kind(kind) && d@ == "Cannot read from Orbit: "@ + error@,
            _ => false,
        },
{
    let mut detail = String::from_str("Cannot read from Orbit: ");
    detail.append(error);
    socket_loss(detail, kind)
}

/// A local-session message that could not be decoded.
#[derive(Clone, Debug, PartialEq, Eq)]
pub enum SessionError {
    /// The server speaks another protocol version.
    UnsupportedVersion { version: u16 },
    /// Any other decoding failure, with its description.
    Invalid(String),
}

/// An unsupported version makes the session incompatible; any other decoding
/// failure ends it with the failure's description.
pub fn protocol_loss<S>(error: SessionError) -> (event: TransportEvent<S>)
    ensures
        match error {
            SessionError::UnsupportedVersion { version } => event == TransportEvent::<S>::Incompatible { version },
            SessionError::Invalid(description) => event matches TransportEvent::Lost(d)
                && d@ == "Orbit sent an invalid local-session message: "@ + description@,
        },
{
    match error {
        SessionError::UnsupportedVersion { version } => TransportEvent::Incompatible { version },
        SessionError::Invalid(description) => {
            let mut detail = String::from_str("Orbit sent an invalid local-session message: ");
            detail.append(description.as_str());
            TransportEvent::Lost(detail)
        },
    }
}

pub open spec fn spec_event_class<S>(event: TransportEvent<S>, server: EventClass) -> EventClass {
    match event {
        TransportEvent::Server(_) => server,
        TransportEvent::InvalidInput(_) => EventClass::Other,
        _ => EventClass::Final,
    }
}

/// What the event queue needs to know of a transport event: a server message is
/// classed as `server` says, rejected input is an ordinary event, and a loss or
/// an incompatibility is the last event of the session.
pub fn event_class<S>(event: &TransportEvent<S>, server: EventClass) -> (class: EventClass)
    ensures
        class == spec_event_class(*event, server),
{
    match event {
        TransportEvent::Server(_) => server,
        TransportEvent::InvalidInput(_) => EventClass::Other,
        _ => EventClass::Final,
    }
}

} // verus!
