use vstd::prelude::*;

verus! {

/// The event-receiving half of an event queue.
///
/// Polling takes `&mut self`: a queue has one consumer, and the exclusive
/// borrow keeps a second one from polling at the same time.
pub trait EventReceiver<E> {
    /// Removes and returns the earliest event that has not been delivered yet,
    /// or `None` when nothing is queued. Never waits.
    fn next_event(&mut self) -> Option<E>;
}

/// The event-sending half of an event queue.
///
/// A sender can be cloned, given away and used from several threads at once.
pub trait EventSender<E>: Send + Sync {
    /// Appends `event` to the queue. Never waits.
    ///
    /// Fails once the receiver is gone; from then on it fails for this sender
    /// and for every clone of it.
    fn send_event(&self, event: E) -> Result<(), ReceiverDroppedError>;
}

/// The receiver of the queue was dropped, so the event could not be sent.
#[derive(Debug, Eq, PartialEq, Copy, Clone)]
pub struct ReceiverDroppedError;

impl ReceiverDroppedError {
    /// The text that describes this error.
    pub open spec fn spec_message() -> Seq<char> {
        "Failed to send the event, because the receiver was dropped."@
    }

    /// Describes the error in words.
    pub fn message(&self) -> (text: String)
        ensures
            text@ == Self::spec_message(),
    {
        String::from_str("Failed to send the event, because the receiver was dropped.")
    }
}

} // verus!
