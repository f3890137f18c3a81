//! An ordered, multi-producer, single-consumer event queue.
//!
//! Producers hold an [`EventSender`] and push events; the one consumer holds
//! an [`EventReceiver`] and polls for them. Events come out in the order in
//! which they went in, whichever sender they went through.
//!
//! The queue itself is the channel of [`std::sync::mpsc`]: this crate adds the
//! two capabilities, their channel-backed implementations, and the one error
//! that a sender can meet.
mod channel;
mod event_queue;
mod mpsc;
mod mpsc_event_queue;

pub use event_queue::{EventReceiver, EventSender, ReceiverDroppedError};
pub use mpsc::{event_queue, polled_event, send_outcome, MpscEventReceiver, MpscEventSender};
pub use mpsc_event_queue::MpscEventQueue;
