use generic_event_queue::{polled_event, send_outcome, ReceiverDroppedError};
use std::sync::mpsc::{SendError, TryRecvError};

#[test]
pub fn send_outcome_is_ok_for_an_accepted_event() {
    assert_eq!(send_outcome::<i32>(Ok(())), Ok(()));
}

#[test]
pub fn send_outcome_is_receiver_dropped_for_a_refused_event() {
    assert_eq!(send_outcome(Err(SendError(3))), Err(ReceiverDroppedError));
    assert_eq!(send_outcome(Err(SendError("event"))), Err(ReceiverDroppedError));
}

#[test]
pub fn polled_event_is_the_event_that_the_channel_gave() {
    assert_eq!(polled_event::<i32>(Ok(3)), Some(3));
    assert_eq!(polled_event::<i32>(Ok(0)), Some(0));
    assert_eq!(polled_event(Ok(String::from("event"))), Some(String::from("event")));
}

#[test]
pub fn polled_event_is_none_for_an_empty_channel() {
    assert_eq!(polled_event::<i32>(Err(TryRecvError::Empty)), None);
}

#[test]
pub fn polled_event_is_none_for_a_channel_without_senders() {
    assert_eq!(polled_event::<i32>(Err(TryRecvError::Disconnected)), None);
}

#[test]
pub fn receiver_dropped_error_describes_itself() {
    assert_eq!(
        ReceiverDroppedError.message(),
        "Failed to send the event, because the receiver was dropped."
    );
}

#[test]
pub fn receiver_dropped_error_is_one_value() {
    let error = ReceiverDroppedError;
    let copy = error;
    assert_eq!(error, copy);
    assert_eq!(error.clone(), ReceiverDroppedError);
    assert_eq!(format!("{:?}", error), "ReceiverDroppedError");
}
