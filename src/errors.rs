use vstd::prelude::*;

verus! {

/// The sender was dropped without sending anything, or the message was already received.
#[derive(Debug, PartialEq, Eq, Structural)]
pub struct DroppedSenderError;

impl DroppedSenderError {
    /// A human-readable description of the error.
    pub fn message(&self) -> (r: &'static str)
        ensures
            r@ == "Oneshot sender dropped without sending anything, or message already received"@,
    {
        "Oneshot sender dropped without sending anything, or message already received"
    }
}

/// Error of a blocking receive: the channel is closed and holds no value.
pub type RecvError = DroppedSenderError;

/// An error returned when trying to send on a closed channel, because the receiver was
/// already dropped. The message that could not be sent can be taken back with
/// [`SendError::into_inner`].
pub struct SendError<T>(Box<T>);

impl<T> SendError<T> {
    /// The message that failed to be sent.
    pub closed spec fn inner(&self) -> T {
        *self.0
    }

    pub fn new(message: Box<T>) -> (r: Self)
        ensures
            r.inner() == *message,
    {
        SendError(message)
    }

    /// Consumes the error and returns the message that failed to be sent.
    pub fn into_inner(self) -> (r: T)
        ensures
            r == self.inner(),
    {
        *self.0
    }

    /// A reference to the message that failed to be sent.
    pub fn as_inner(&self) -> (r: &T)
        ensures
            *r == self.inner(),
    {
        &self.0
    }

    /// A human-readable description of the error.
    pub fn message(&self) -> (r: &'static str)
        ensures
            r@ == "oneshot receiver has already been dropped"@,
    {
        "oneshot receiver has already been dropped"
    }
}

/// An error returned by a non-blocking receive.
#[derive(Debug, Clone, Copy, PartialEq, Eq, Structural, Hash)]
pub enum TryRecvError {
    /// The channel is still open, but there was no message present in it.
    Empty,
    /// The channel is closed: either the sender was dropped before sending any message, or the
    /// message has already been taken out.
    Disconnected,
}

impl TryRecvError {
    /// A human-readable description of the error.
    pub fn message(&self) -> (r: &'static str)
        ensures
            *self == TryRecvError::Empty ==> r@ == "receiving on an empty channel"@,
            *self == TryRecvError::Disconnected ==> r@ == "receiving on a closed channel"@,
    {
        match self {
            TryRecvError::Empty => "receiving on an empty channel",
            TryRecvError::Disconnected => "receiving on a closed channel",
        }
    }
}

/// An error returned by a receive with a deadline.
#[derive(Debug, Clone, Copy, PartialEq, Eq, Structural, Hash)]
pub enum RecvTimeoutError {
    /// No message arrived before the deadline; the channel stays open.
    Timeout,
    /// The channel is closed.
    Disconnected,
}

} // verus!
