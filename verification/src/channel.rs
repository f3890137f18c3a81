//! The channel of the standard library, as far as this crate calls it.
//!
//! Nothing in this file is proved. To the verifier a `Sender` or a `Receiver`
//! is an opaque value that stands for the end of the channel that it is, not
//! for what is queued there. The channel is shared between threads, so what
//! `channel`, `send` and `try_recv` return depends on what the other handles
//! have done in the meantime, and their declarations below promise nothing
//! about it: they only make the calls known to the verifier. What the crate
//! does with the answers is proved where the answers are used. The one claim
//! made here is on `clone`: the clone of a sender feeds the same channel.
use std::sync::mpsc::{Receiver, SendError, Sender, TryRecvError};
use vstd::prelude::*;

verus! {

/// `std::sync::mpsc::Sender`, the sending end of a channel; opaque.
#[verifier::external_type_specification]
#[verifier::external_body]
#[verifier::reject_recursive_types(T)]
pub struct ExSender<T>(Sender<T>);

/// `std::sync::mpsc::Receiver`, the receiving end of a channel; opaque.
#[verifier::external_type_specification]
#[verifier::external_body]
#[verifier::reject_recursive_types(T)]
pub struct ExReceiver<T>(Receiver<T>);

/// `std::sync::mpsc::SendError`, which `Sender::send` returns when the
/// receiving end is gone; opaque.
#[verifier::external_type_specification]
#[verifier::external_body]
#[verifier::reject_recursive_types(T)]
pub struct ExSendError<T>(SendError<T>);

/// `std::sync::mpsc::TryRecvError`, which `Receiver::try_recv` returns when it
/// has no value to hand out; opaque.
#[verifier::external_type_specification]
#[verifier::external_body]
pub struct ExTryRecvError(TryRecvError);

/// `std::sync::mpsc::channel` makes a new channel and returns its two ends.
/// Nothing is claimed of them.
pub assume_specification<T>[ std::sync::mpsc::channel::<T> ]() -> (ends: (Sender<T>, Receiver<T>));

/// `Sender::send` hands a value to the channel and never blocks. Whether it
/// succeeds depends on whether the receiving end still exists, so nothing is
/// claimed of the result.
pub assume_specification<T>[ Sender::<T>::send ](sender: &Sender<T>, t: T) -> (sent: Result<
    (),
    SendError<T>,
>);

/// `Receiver::try_recv` takes the next value out of the channel if one is
/// waiting and never blocks. What is waiting depends on the senders, so
/// nothing is claimed of the result.
pub assume_specification<T>[ Receiver::<T>::try_recv ](receiver: &Receiver<T>) -> (polled: Result<
    T,
    TryRecvError,
>);

/// `Sender::clone` makes another sender for the same channel. The claim is
/// that the clone stands for the same channel end as the sender it was made
/// from: what is sent through either goes into the one channel.
pub assume_specification<T>[ <Sender<T> as Clone>::clone ](sender: &Sender<T>) -> (copy: Sender<T>)
    ensures
        copy == *sender,
;

} // verus!
