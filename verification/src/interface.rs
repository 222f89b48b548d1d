//! The caller's side of a session.
//!
//! The interface is all that a game touches: it sends a turn when the turn is
//! the caller's, and polls for the peer's turn when it is not. It never waits.

use crate::channel::{handoff, offer, poll, Offer, Polled, HANDOFF_SLOTS};
use crate::protocol::{PieceBoard, RelayPhase};
use crate::turn::{completions, consistent, flag_after, permits, Role, TurnEvent, TurnGate};
use tokio::sync::mpsc::{Receiver, Sender};
use vstd::prelude::*;

verus! {

/// How a session is opened: with a ticket in hand, or asking for one.
pub enum Config {
    /// A ticket string obtained from the other player.
    Ticket(String),
    /// The sender on which the newly written ticket is delivered.
    TicketSender(tokio::sync::oneshot::Sender<String>),
}

impl Config {
    /// The role that this way of opening a session gives: whoever holds a
    /// ticket is the initiator, whoever asks for one is the host.
    pub open spec fn spec_role(&self) -> Role {
        match self {
            Config::Ticket(_) => Role::Initiator,
            Config::TicketSender(_) => Role::Host,
        }
    }

    /// The role that this way of opening a session gives.
    #[verifier::when_used_as_spec(spec_role)]
    pub fn role(&self) -> (role: Role)
        ensures
            role == self.spec_role(),
    {
        match self {
            Config::Ticket(_) => Role::Initiator,
            Config::TicketSender(_) => Role::Host,
        }
    }
}

/// Why a turn was not sent. Neither happens while both sides keep to the turn
/// discipline and the relay runs.
#[derive(Clone, Copy, Debug, PartialEq, Eq, Structural)]
pub enum SendError {
    /// The relay has not taken the previous turn yet.
    Backlogged,
    /// The relay is gone.
    SessionEnded,
}

/// Why a poll gave no turn.
#[derive(Clone, Copy, Debug, PartialEq, Eq, Structural)]
pub enum RecvError {
    /// The peer's turn has not arrived yet. This is the usual answer while
    /// waiting.
    NotYet,
    /// The relay is gone, and nothing will arrive any more.
    SessionEnded,
}

/// What a send comes to, given what became of the offer to the outbound
/// channel.
pub open spec fn send_outcome(outcome: Offer) -> Result<(), SendError> {
    match outcome {
        Offer::Accepted => Ok(()),
        Offer::Full => Err(SendError::Backlogged),
        Offer::Closed => Err(SendError::SessionEnded),
    }
}

/// What a poll comes to, given what the inbound channel held.
pub open spec fn poll_outcome<const SIZE: usize>(found: Polled<SIZE>) -> Result<
    [u8; SIZE],
    RecvError,
> {
    match found {
        Polled::Message(turn) => Ok(turn),
        Polled::Empty => Err(RecvError::NotYet),
        Polled::Disconnected => Err(RecvError::SessionEnded),
    }
}

/// The call that a poll counts as: a turn received, or nothing yet.
pub open spec fn poll_event<const SIZE: usize>(polled: Result<[u8; SIZE], RecvError>) -> TurnEvent {
    if polled is Ok {
        TurnEvent::Received
    } else {
        TurnEvent::NotYet
    }
}

/// Settles a send: the turn is sent exactly when the outbound channel took it.
pub fn settle_send(outcome: Offer) -> (sent: Result<(), SendError>)
    ensures
        sent == send_outcome(outcome),
{
    match outcome {
        Offer::Accepted => Ok(()),
        Offer::Full => Err(SendError::Backlogged),
        Offer::Closed => Err(SendError::SessionEnded),
    }
}

/// Settles a poll: the peer's turn as it was found, byte for byte, or the
/// reason why there is none.
pub fn settle_poll<const SIZE: usize>(found: Polled<SIZE>) -> (polled: Result<
    [u8; SIZE],
    RecvError,
>)
    ensures
        polled == poll_outcome(found),
{
    match found {
        Polled::Message(turn) => Ok(turn),
        Polled::Empty => Err(RecvError::NotYet),
        Polled::Disconnected => Err(RecvError::SessionEnded),
    }
}

/// The interface for netcode.
///
/// One is opened on each player's machine. The host asks for a ticket and
/// moves second; the initiator holds that ticket and moves first.
///
/// While it is the caller's turn, the caller may [`send_turn`] once, and it
/// is no longer the caller's turn. While it is not, the caller may
/// [`try_recv_turn`] as often as it likes; once that gives a turn, it is the
/// caller's turn again.
///
/// Turns are byte buffers of one size, `SIZE`, which both players must agree
/// on.
///
/// [`send_turn`]: NetcodeInterface::send_turn
/// [`try_recv_turn`]: NetcodeInterface::try_recv_turn
#[verifier::reject_recursive_types(SIZE)]
pub struct NetcodeInterface<const SIZE: usize> {
    gate: TurnGate,
    recv_from_iroh: Receiver<[u8; SIZE]>,
    send_to_iroh: Sender<[u8; SIZE]>,
}

impl<const SIZE: usize> NetcodeInterface<SIZE> {
    /// Whether it is the caller's turn.
    pub closed spec fn spec_my_turn(&self) -> bool {
        self.gate.my_turn()
    }

    /// The flag that the interface was opened with.
    pub closed spec fn initial(&self) -> bool {
        self.gate.initial()
    }

    /// The calls made on this interface that were allowed and took effect,
    /// oldest first.
    pub closed spec fn history(&self) -> Seq<TurnEvent> {
        self.gate.history()
    }

    /// The caller's end of the inbound channel, on which turns arrive.
    pub closed spec fn inbound_end(&self) -> Receiver<[u8; SIZE]> {
        self.recv_from_iroh
    }

    /// The caller's end of the outbound channel, on which turns leave.
    pub closed spec fn outbound_end(&self) -> Sender<[u8; SIZE]> {
        self.send_to_iroh
    }

    /// Opens a session: the interface for the caller, and the relay that
    /// serves it, joined by two fresh handoff channels.
    ///
    /// With a ticket in hand the caller is the initiator and starts with the
    /// turn; asking for a ticket makes it the host, which starts without. The
    /// relay has no stream yet: whoever runs it establishes one.
    pub fn new(config: &Config) -> (opened: (Self, PieceBoard<SIZE>))
        ensures
            opened.0.my_turn() == config.role().moves_first(),
            opened.0.initial() == config.role().moves_first(),
            opened.0.history() == Seq::<TurnEvent>::empty(),
            opened.1.phase() == RelayPhase::Idle,
    {
        let (send_to_iroh, recv_from_game) = handoff(HANDOFF_SLOTS);
        let (send_to_game, recv_from_iroh) = handoff(HANDOFF_SLOTS);
        let gate = TurnGate::open(config.role());
        (
            NetcodeInterface { gate, recv_from_iroh, send_to_iroh },
            PieceBoard::new(send_to_game, recv_from_game),
        )
    }

    /// Sends a turn to the other player.
    ///
    /// The turn is offered to the outbound channel without waiting. When the
    /// channel takes it, the caller's turn is over. When it does not, nothing
    /// has changed. Either way the inbound channel is left alone: a send takes
    /// nothing from it.
    pub fn send_turn(&mut self, turn: &[u8; SIZE]) -> (sent: Result<(), SendError>)
        requires
            permits(old(self).my_turn(), TurnEvent::Sent),
        ensures
            sent is Ok ==> final(self).my_turn() == flag_after(
                old(self).my_turn(),
                TurnEvent::Sent,
            ),
            sent is Ok ==> final(self).history() == old(self).history().push(TurnEvent::Sent),
            sent is Err ==> final(self).my_turn() == old(self).my_turn(),
            sent is Err ==> final(self).history() == old(self).history(),
            final(self).initial() == old(self).initial(),
            final(self).inbound_end() == old(self).inbound_end(),
            final(self).outbound_end() == old(self).outbound_end(),
    {
        let outcome = offer(&self.send_to_iroh, *turn);
        let sent = settle_send(outcome);
        match sent {
            Ok(()) => {
                self.gate.record(TurnEvent::Sent);
            },
            Err(_) => {},
        }
        sent
    }

    /// Checks whether the other player has sent a turn.
    ///
    /// Never waits. A turn that has arrived is handed over, and it is the
    /// caller's turn again. Otherwise nothing has changed, and the caller may
    /// ask again. Either way the outbound end is left as it was.
    pub fn try_recv_turn(&mut self) -> (polled: Result<[u8; SIZE], RecvError>)
        requires
            permits(old(self).my_turn(), TurnEvent::NotYet),
        ensures
            final(self).my_turn() == flag_after(old(self).my_turn(), poll_event(polled)),
            final(self).history() == old(self).history().push(poll_event(polled)),
            final(self).initial() == old(self).initial(),
            final(self).outbound_end() == old(self).outbound_end(),
    {
        let found = poll(&mut self.recv_from_iroh);
        let polled = settle_poll(found);
        match polled {
            Ok(_) => {
                self.gate.record(TurnEvent::Received);
            },
            Err(_) => {
                self.gate.record(TurnEvent::NotYet);
            },
        }
        polled
    }

    /// Returns whether it is the caller's turn.
    ///
    /// It is exactly when the number of turns completed so far, sent and
    /// received together, is even for the initiator and odd for the host.
    #[verifier::when_used_as_spec(spec_my_turn)]
    pub fn my_turn(&self) -> (mine: bool)
        ensures
            mine == self.spec_my_turn(),
            mine == (self.initial() != (completions(self.history()) % 2 == 1)),
            consistent(self.initial(), self.history()),
    {
        self.gate.my_turn()
    }
}

} // verus!
