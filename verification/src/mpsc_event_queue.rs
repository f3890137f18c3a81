//! The receiving half as a type that makes its own queue.
use std::sync::mpsc::{channel, Receiver};
use vstd::prelude::*;
use vstd::std_specs::convert::FromSpecImpl;

use crate::event_queue::EventReceiver;
use crate::mpsc::{polled_event, MpscEventSender};

verus! {

/// An event queue on a channel of [`std::sync::mpsc`].
///
/// It is used through [`EventReceiver`]; events reach it through the
/// [`MpscEventSender`] that [`MpscEventQueue::new`] returns with it, and
/// through the clones of that sender.
#[verifier::reject_recursive_types(E)]
pub struct MpscEventQueue<E> {
    receiver: Receiver<E>,
}

impl<E> MpscEventQueue<E> {
    /// Creates a new event queue, and the first sender for it.
    pub fn new() -> (MpscEventSender<E>, Self) {
        let (sender, receiver) = channel();
        let sender = MpscEventSender::from(sender);
        let receiver = MpscEventQueue::from(receiver);
        (sender, receiver)
    }
}

impl<E> View for MpscEventQueue<E> {
    type V = Receiver<E>;

    /// The receiving end of the channel that this queue polls.
    closed spec fn view(&self) -> Receiver<E> {
        self.receiver
    }
}

impl<E> FromSpecImpl<Receiver<E>> for MpscEventQueue<E> {
    open spec fn obeys_from_spec() -> bool {
        true
    }

    closed spec fn from_spec(receiver: Receiver<E>) -> Self {
        MpscEventQueue { receiver }
    }
}

impl<E> From<Receiver<E>> for MpscEventQueue<E> {
    /// Makes the receiving end of a channel an event queue.
    fn from(receiver: Receiver<E>) -> (queue: Self)
        ensures
            queue@ == receiver,
    {
        Self { receiver }
    }
}

impl<E> EventReceiver<E> for MpscEventQueue<E> {
    /// Polls the channel once and hands out what [`polled_event`] makes of
    /// its answer. The queue stays on its end of the channel.
    fn next_event(&mut self) -> (event: Option<E>)
        ensures
            final(self)@ == old(self)@,
    {
        polled_event(self.receiver.try_recv())
    }
}

} // verus!
