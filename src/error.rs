//! Error types of the codec, the request and event dispatchers, and the
//! widget sink.
use vstd::prelude::*;
use vstd::string::to_string_from_display_ensures;

verus! {

/// An I/O failure of the underlying stream or of the widget sink.
#[verifier::external_type_specification]
#[verifier::external_body]
pub struct ExIoError(std::io::Error);

/// A JSON (de)serialization failure of a payload.
#[verifier::external_type_specification]
#[verifier::external_body]
pub struct ExJsonError(serde_json::Error);

/// Failure to read one frame.
#[derive(Debug)]
pub enum ResponseDeserializeError {
    /// The stream failed or ended in the middle of a frame.
    Io(std::io::Error),
    /// The header did not open with the magic; holds the six bytes read, as text.
    InvalidMagicString(String),
    /// A reply carried a tag outside the request kinds.
    InvalidMessageType(u32),
    /// An event carried a tag outside the event kinds.
    InvalidEventType(u32),
}

/// The cause of a widget-sink failure, kept as its description so that
/// failures of every parse type share one type.
#[derive(Debug, Clone)]
pub struct ErasedCause {
    pub description: String,
}

/// Failure of the widget sink, carrying a parse failure of type `E`.
#[derive(Debug)]
pub enum EwwError<E> {
    Io(std::io::Error),
    ParseVar(E),
    NoEwwExecutable,
}

impl<E: std::fmt::Display> EwwError<E> {
    /// The same error with its parse failure erased to its description.
    pub fn boxed(self) -> (r: EwwError<ErasedCause>)
        ensures
            (self is Io) <==> (r is Io),
            self is Io ==> r->Io_0 == self->Io_0,
            (self is NoEwwExecutable) <==> (r is NoEwwExecutable),
            (self is ParseVar) <==> (r is ParseVar),
            self is ParseVar ==> to_string_from_display_ensures::<E>(
                &self->ParseVar_0,
                r->ParseVar_0.description,
            ),
    {
        match self {
            EwwError::Io(e) => EwwError::Io(e),
            EwwError::ParseVar(e) => EwwError::ParseVar(ErasedCause { description: e.to_string() }),
            EwwError::NoEwwExecutable => EwwError::NoEwwExecutable,
        }
    }
}

/// A workspace change token that names no change.
#[derive(Debug)]
pub enum WorkspaceEventParseError {
    Invalid(String),
}

/// Failure of one request: sending it, reading its reply, or acting on it.
#[derive(Debug)]
pub enum RequestError {
    Io(std::io::Error),
    Read(ResponseDeserializeError),
    Eww(EwwError<ErasedCause>),
    Deserialize(serde_json::Error),
    Serialize(serde_json::Error),
    /// The peer refused the subscription.
    UnsuccessfulSubscription,
}

/// Failure while handling one event.
#[derive(Debug)]
pub enum EventError {
    Read(ResponseDeserializeError),
    Request(RequestError),
    DeserializePayload(serde_json::Error),
    Eww(EwwError<ErasedCause>),
}

/// Failure that ends the event loop.
#[derive(Debug)]
pub enum EventLoopError {
    /// The subscription at startup failed.
    Subscription(RequestError),
    /// An event frame could not be read; the stream can no longer be trusted.
    Read(ResponseDeserializeError),
    Event(EventError),
}

/// Failure to connect to the peer's socket.
#[derive(Debug)]
pub enum DaemonError {
    Connect(std::io::Error),
}

/// Failure of the bridge as a whole.
#[derive(Debug)]
pub enum SwayUpdateError {
    NoSubscriptionEvents,
    NoSocket,
    Eww(EwwError<()>),
    Daemon(DaemonError),
    EventLoop(EventLoopError),
}

} // verus!
