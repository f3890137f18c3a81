//! The event queue on top of the channel of [`std::sync::mpsc`].
use std::sync::mpsc::{channel, Receiver, SendError, Sender, TryRecvError};
use vstd::prelude::*;
use vstd::std_specs::convert::FromSpecImpl;

use crate::event_queue::{EventReceiver, EventSender, ReceiverDroppedError};

verus! {

/// What a sender reports for the channel's answer to a send: success when the
/// channel took the event, [`ReceiverDroppedError`] when it refused it. The
/// channel refuses an event only when its receiving end is gone.
pub fn send_outcome<E>(sent: Result<(), SendError<E>>) -> (outcome: Result<
    (),
    ReceiverDroppedError,
>)
    ensures
        outcome == match sent {
            Ok(_) => Ok::<(), ReceiverDroppedError>(()),
            Err(_) => Err(ReceiverDroppedError),
        },
{
    match sent {
        Ok(_) => Ok(()),
        Err(_) => Err(ReceiverDroppedError),
    }
}

/// What a receiver hands out for the channel's answer to a poll: the event
/// when the channel gave one, `None` in every other case, whether the channel
/// is only empty for now or all its senders are gone as well.
pub fn polled_event<E>(polled: Result<E, TryRecvError>) -> (event: Option<E>)
    ensures
        event == match polled {
            Ok(e) => Some(e),
            Err(_) => None,
        },
{
    polled.ok()
}

/// Creates an event queue and returns its two halves: the first sender, from
/// which all others are cloned, and the one receiver.
pub fn event_queue<E>() -> (MpscEventSender<E>, MpscEventReceiver<E>) {
    let (sender, receiver) = channel();
    let sender = MpscEventSender::from(sender);
    let receiver = MpscEventReceiver::from(receiver);
    (sender, receiver)
}

/// The [`EventReceiver`] half of the queue made by [`event_queue()`].
#[verifier::reject_recursive_types(E)]
pub struct MpscEventReceiver<E> {
    inner: Receiver<E>,
}

impl<E> View for MpscEventReceiver<E> {
    type V = Receiver<E>;

    /// The receiving end of the channel that this receiver polls.
    closed spec fn view(&self) -> Receiver<E> {
        self.inner
    }
}

impl<E> FromSpecImpl<Receiver<E>> for MpscEventReceiver<E> {
    open spec fn obeys_from_spec() -> bool {
        true
    }

    closed spec fn from_spec(receiver: Receiver<E>) -> Self {
        MpscEventReceiver { inner: receiver }
    }
}

impl<E> From<Receiver<E>> for MpscEventReceiver<E> {
    /// Makes the receiving end of a channel an event receiver.
    fn from(receiver: Receiver<E>) -> (handle: Self)
        ensures
            handle@ == receiver,
    {
        Self { inner: receiver }
    }
}

impl<E> EventReceiver<E> for MpscEventReceiver<E> {
    /// Polls the channel once and hands out what [`polled_event`] makes of
    /// its answer. The receiver stays on its end of the channel.
    fn next_event(&mut self) -> (event: Option<E>)
        ensures
            final(self)@ == old(self)@,
    {
        polled_event(self.inner.try_recv())
    }
}

/// The [`EventSender`] half of an event queue.
#[verifier::reject_recursive_types(E)]
pub struct MpscEventSender<E> {
    inner: Sender<E>,
}

impl<E> View for MpscEventSender<E> {
    type V = Sender<E>;

    /// The sending end of the channel that this sender pushes into.
    closed spec fn view(&self) -> Sender<E> {
        self.inner
    }
}

impl<E> Clone for MpscEventSender<E> {
    /// Another sender for the same queue: the clone pushes into the channel
    /// end that `self` pushes into.
    fn clone(&self) -> (copy: Self)
        ensures
            copy@ == self@,
    {
        Self { inner: self.inner.clone() }
    }
}

impl<E> FromSpecImpl<Sender<E>> for MpscEventSender<E> {
    open spec fn obeys_from_spec() -> bool {
        true
    }

    closed spec fn from_spec(sender: Sender<E>) -> Self {
        MpscEventSender { inner: sender }
    }
}

impl<E> From<Sender<E>> for MpscEventSender<E> {
    /// Makes the sending end of a channel an event sender.
    fn from(sender: Sender<E>) -> (handle: Self)
        ensures
            handle@ == sender,
    {
        Self { inner: sender }
    }
}

impl<E: Send> EventSender<E> for MpscEventSender<E> {
    /// Hands `event` to the channel once and reports what [`send_outcome`]
    /// makes of its answer.
    fn send_event(&self, event: E) -> Result<(), ReceiverDroppedError> {
        send_outcome(self.inner.send(event))
    }
}

} // verus!
