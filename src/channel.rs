//! The FIFO channels that carry messages between the console, the registry
//! and the connection handlers.

use vstd::prelude::*;

use std::sync::mpsc::{Receiver, Sender, TryRecvError};

use crate::message::Message;

verus! {

#[verifier::external_type_specification]
#[verifier::external_body]
#[verifier::reject_recursive_types(T)]
pub struct ExSender<T>(Sender<T>);

#[verifier::external_type_specification]
#[verifier::external_body]
#[verifier::reject_recursive_types(T)]
pub struct ExReceiver<T>(Receiver<T>);

/// What a non-blocking look at a channel found.
pub enum Poll {
    /// The oldest waiting message, now taken off the channel.
    Received(Message),
    /// No message is waiting.
    Empty,
    /// The sending end is gone and nothing is left to take.
    Disconnected,
}

/// Relies on `std::sync::mpsc::channel`: a new channel, as its sending and its
/// receiving end.
#[verifier::external_body]
pub(crate) fn new_channel() -> (r: (Sender<Message>, Receiver<Message>)) {
    std::sync::mpsc::channel()
}

/// Relies on `Sender::send`: hands the message to the channel; `false` when the
/// receiving end is gone.
#[verifier::external_body]
pub(crate) fn send(tx: &Sender<Message>, msg: Message) -> (r: bool) {
    tx.send(msg).is_ok()
}

/// Relies on `Receiver::try_recv`: takes the oldest waiting message without
/// blocking.
#[verifier::external_body]
pub(crate) fn poll(rx: &Receiver<Message>) -> (r: Poll) {
    match rx.try_recv() {
        Ok(msg) => Poll::Received(msg),
        Err(TryRecvError::Empty) => Poll::Empty,
        Err(TryRecvError::Disconnected) => Poll::Disconnected,
    }
}

} // verus!
