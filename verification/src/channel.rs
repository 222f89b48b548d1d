//! The handoff channels between the caller and the relay.
//!
//! A session has two of them, one for each direction, each with room for a
//! single message. The caller's interface and the relay run on different
//! threads, so what a call on an endpoint finds depends on what the other side
//! has done by then: nothing is claimed here of any outcome, and the code that
//! makes these calls is verified for every one of them.

use tokio::sync::mpsc::error::{TryRecvError, TrySendError};
use tokio::sync::mpsc::{Receiver, Sender};
use vstd::prelude::*;

verus! {

/// The sending half of a `tokio::sync::mpsc` channel. Nothing inside it is
/// visible to the verifier.
#[verifier::external_type_specification]
#[verifier::external_body]
#[verifier::reject_recursive_types(T)]
pub struct ExSender<T>(Sender<T>);

/// The receiving half of a `tokio::sync::mpsc` channel. Nothing inside it is
/// visible to the verifier.
#[verifier::external_type_specification]
#[verifier::external_body]
#[verifier::reject_recursive_types(T)]
pub struct ExReceiver<T>(Receiver<T>);

/// The sending half of a `tokio::sync::oneshot` channel. Nothing inside it is
/// visible to the verifier.
#[verifier::external_type_specification]
#[verifier::external_body]
#[verifier::reject_recursive_types(T)]
pub struct ExOneshotSender<T>(tokio::sync::oneshot::Sender<T>);

/// How many messages a handoff channel holds.
pub const HANDOFF_SLOTS: usize = 1;

/// What became of a message offered to a handoff channel.
#[derive(Clone, Copy, Debug, PartialEq, Eq, Structural)]
pub enum Offer {
    /// The channel took the message.
    Accepted,
    /// The channel still holds an earlier message.
    Full,
    /// The receiving half is gone.
    Closed,
}

/// What a poll of a handoff channel found.
#[derive(Clone, Copy, Debug, PartialEq, Eq)]
pub enum Polled<const SIZE: usize> {
    /// A message, now taken out of the channel.
    Message([u8; SIZE]),
    /// Nothing, while a sender still exists.
    Empty,
    /// Nothing, and no sender is left to put anything in.
    Disconnected,
}

/// Calls `tokio::sync::mpsc::channel` for a channel of `slots` messages.
///
/// That function panics on a capacity of zero and on one above an eighth of
/// `usize::MAX`; both are left out. Nothing is claimed of the two endpoints.
#[verifier::external_body]
pub(crate) fn handoff<const SIZE: usize>(slots: usize) -> (ends: (
    Sender<[u8; SIZE]>,
    Receiver<[u8; SIZE]>,
))
    requires
        0 < slots <= usize::MAX / 8,
{
    tokio::sync::mpsc::channel(slots)
}

/// Calls `tokio::sync::mpsc::Sender::try_send`, which never waits.
///
/// The outcome depends on what the receiving side has done, so nothing is
/// claimed of it; the three outcomes of `try_send` are told apart one for one.
#[verifier::external_body]
pub(crate) fn offer<const SIZE: usize>(to: &Sender<[u8; SIZE]>, message: [u8; SIZE]) -> (outcome:
    Offer) {
    match to.try_send(message) {
        Ok(()) => Offer::Accepted,
        Err(TrySendError::Full(_)) => Offer::Full,
        Err(TrySendError::Closed(_)) => Offer::Closed,
    }
}

/// Calls `tokio::sync::mpsc::Receiver::try_recv`, which never waits for a
/// message that has not been sent.
///
/// The outcome depends on what the sending side has done, so nothing is
/// claimed of it; the three outcomes of `try_recv` are told apart one for one.
#[verifier::external_body]
pub(crate) fn poll<const SIZE: usize>(from: &mut Receiver<[u8; SIZE]>) -> (found: Polled<SIZE>) {
    match from.try_recv() {
        Ok(message) => Polled::Message(message),
        Err(TryRecvError::Empty) => Polled::Empty,
        Err(TryRecvError::Disconnected) => Polled::Disconnected,
    }
}

} // verus!
