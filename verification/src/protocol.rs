//! The relay: the loop that owns the stream of a session.
//!
//! Once the stream to the other peer is open, the relay moves exactly one
//! message in each direction per cycle, for as long as the session lasts. The
//! initiator's relay sends first and then receives; the host's relay receives
//! first and then sends. That order, and nothing else, is what makes the
//! initiator move first.
//!
//! The relay is written as a state machine. A driver owns the stream: it does
//! what the last [`RelayAction`] asked for, waits for it to finish, and hands
//! the outcome back as a [`RelayEvent`]. Every decision is made here.

use crate::channel::{offer, Offer};
use crate::rendezvous::EstablishError;
use crate::turn::Role;
use tokio::sync::mpsc::{Receiver, Sender};
use vstd::prelude::*;

verus! {

/// The tag that both peers present when the connection is negotiated, as the
/// bytes of this string. A peer that presents another one is turned away by
/// the transport.
pub const PIECEBOARD_ALPN: &'static str = "saffron/pieceboard/0";

/// Why a relay stopped. A relay that has stopped stays stopped.
#[derive(Clone, Copy, Debug, PartialEq, Eq, Structural)]
pub enum RelayFault {
    /// The session was never established.
    Establish(EstablishError),
    /// The caller's interface is gone: nothing will ever be sent again.
    OutboundClosed,
    /// The stream could not be written.
    WriteFailed,
    /// The stream could not be read.
    ReadFailed,
    /// The inbound channel did not take a message: the caller has broken the
    /// turn discipline, or its interface is gone.
    InboundRefused,
    /// The driver reported something that the relay was not waiting for.
    OutOfOrder,
}

/// Where a relay stands in its cycle.
#[derive(Clone, Copy, Debug, PartialEq, Eq, Structural)]
pub enum RelayPhase {
    /// The stream is not open yet.
    Idle,
    /// Waiting for the caller's next message on the outbound channel.
    TakingOutbound,
    /// Writing the caller's message to the stream.
    Writing,
    /// Reading the peer's message from the stream.
    Reading,
    /// Pushing the peer's message onto the inbound channel.
    Pushing,
    /// Stopped for good.
    Stopped(RelayFault),
}

/// What the driver reports to the relay.
#[derive(Clone, Copy, Debug, PartialEq, Eq)]
pub enum RelayEvent<const SIZE: usize> {
    /// The stream to the peer is open, and this side plays `Role`.
    Established(Role),
    /// The stream could not be opened.
    EstablishFailed(EstablishError),
    /// The caller's message was taken from the outbound channel.
    Outbound([u8; SIZE]),
    /// The outbound channel is closed and empty.
    OutboundClosed,
    /// The message was written to the stream in full.
    Written,
    /// Writing to the stream failed.
    WriteFailed,
    /// A whole message was read from the stream.
    Read([u8; SIZE]),
    /// Reading from the stream failed.
    ReadFailed,
    /// The inbound channel took the message.
    Pushed,
    /// The inbound channel did not take the message.
    PushRefused,
}

/// What the relay asks of the driver next.
#[derive(Clone, Copy, Debug, PartialEq, Eq)]
pub enum RelayAction<const SIZE: usize> {
    /// Wait until the caller's message is on the outbound channel, and take it.
    TakeOutbound,
    /// Write this message to the stream in full.
    Write([u8; SIZE]),
    /// Read one whole message from the stream.
    Read,
    /// Push this message onto the inbound channel.
    Push([u8; SIZE]),
    /// Give up: the relay has stopped.
    Stop(RelayFault),
}

/// The relay stopping with `fault`.
pub open spec fn halt<const SIZE: usize>(fault: RelayFault) -> (RelayPhase, RelayAction<SIZE>) {
    (RelayPhase::Stopped(fault), RelayAction::Stop(fault))
}

/// The relay's whole behaviour: the phase and the action that follow `event`
/// in `phase`.
///
/// An initiator's cycle is take, write, read, push. A host's cycle is the
/// same one, entered at read. A message leaves as it came: what was taken is
/// what is written, and what was read is what is pushed. A failure stops the
/// relay, and so does an event that the phase was not waiting for.
pub open spec fn relay_next<const SIZE: usize>(phase: RelayPhase, event: RelayEvent<SIZE>) -> (
    RelayPhase,
    RelayAction<SIZE>,
) {
    match (phase, event) {
        (RelayPhase::Stopped(fault), _) => halt(fault),
        (RelayPhase::Idle, RelayEvent::Established(Role::Initiator)) => (
            RelayPhase::TakingOutbound,
            RelayAction::TakeOutbound,
        ),
        (RelayPhase::Idle, RelayEvent::Established(Role::Host)) => (
            RelayPhase::Reading,
            RelayAction::Read,
        ),
        (RelayPhase::Idle, RelayEvent::EstablishFailed(error)) => halt(
            RelayFault::Establish(error),
        ),
        (RelayPhase::TakingOutbound, RelayEvent::Outbound(message)) => (
            RelayPhase::Writing,
            RelayAction::Write(message),
        ),
        (RelayPhase::TakingOutbound, RelayEvent::OutboundClosed) => halt(
            RelayFault::OutboundClosed,
        ),
        (RelayPhase::Writing, RelayEvent::Written) => (RelayPhase::Reading, RelayAction::Read),
        (RelayPhase::Writing, RelayEvent::WriteFailed) => halt(RelayFault::WriteFailed),
        (RelayPhase::Reading, RelayEvent::Read(message)) => (
            RelayPhase::Pushing,
            RelayAction::Push(message),
        ),
        (RelayPhase::Reading, RelayEvent::ReadFailed) => halt(RelayFault::ReadFailed),
        (RelayPhase::Pushing, RelayEvent::Pushed) => (
            RelayPhase::TakingOutbound,
            RelayAction::TakeOutbound,
        ),
        (RelayPhase::Pushing, RelayEvent::PushRefused) => halt(RelayFault::InboundRefused),
        _ => halt(RelayFault::OutOfOrder),
    }
}

/// The event that stands for what became of a push.
pub open spec fn push_event<const SIZE: usize>(outcome: Offer) -> RelayEvent<SIZE> {
    match outcome {
        Offer::Accepted => RelayEvent::Pushed,
        Offer::Full | Offer::Closed => RelayEvent::PushRefused,
    }
}

/// A message leaves the relay as it came: whatever the relay asks to be
/// written is the message that was taken from the caller, byte for byte, and
/// whatever it asks to be pushed is the message that was read from the peer.
pub proof fn lemma_relay_passes_messages_unchanged<const SIZE: usize>(
    phase: RelayPhase,
    event: RelayEvent<SIZE>,
)
    ensures
        relay_next(phase, event).1 matches RelayAction::Write(message) ==> event
            == RelayEvent::Outbound(message),
        relay_next(phase, event).1 matches RelayAction::Push(message) ==> event
            == RelayEvent::Read(message),
{
}

/// Nothing is retried: a relay that has stopped stays stopped, with the fault
/// that stopped it, whatever is reported to it; and a relay stops at the first
/// failure that is reported to it.
pub proof fn lemma_relay_stops_for_good<const SIZE: usize>(
    phase: RelayPhase,
    event: RelayEvent<SIZE>,
)
    ensures
        phase matches RelayPhase::Stopped(fault) ==> relay_next(phase, event) == halt::<SIZE>(
            fault,
        ),
        relay_next(phase, event).0 is Stopped <==> relay_next(phase, event).1 is Stop,
        (event is EstablishFailed || event is OutboundClosed || event is WriteFailed
            || event is ReadFailed || event is PushRefused) ==> relay_next(phase, event).0
            is Stopped,
{
}

/// Decides what follows `event` in `phase`.
pub fn decide<const SIZE: usize>(phase: RelayPhase, event: RelayEvent<SIZE>) -> (next: (
    RelayPhase,
    RelayAction<SIZE>,
))
    ensures
        next == relay_next(phase, event),
{
    match phase {
        RelayPhase::Stopped(fault) => (RelayPhase::Stopped(fault), RelayAction::Stop(fault)),
        RelayPhase::Idle => match event {
            RelayEvent::Established(Role::Initiator) => (
                RelayPhase::TakingOutbound,
                RelayAction::TakeOutbound,
            ),
            RelayEvent::Established(Role::Host) => (RelayPhase::Reading, RelayAction::Read),
            RelayEvent::EstablishFailed(error) => stop(RelayFault::Establish(error)),
            _ => stop(RelayFault::OutOfOrder),
        },
        RelayPhase::TakingOutbound => match event {
            RelayEvent::Outbound(message) => (RelayPhase::Writing, RelayAction::Write(message)),
            RelayEvent::OutboundClosed => stop(RelayFault::OutboundClosed),
            _ => stop(RelayFault::OutOfOrder),
        },
        RelayPhase::Writing => match event {
            RelayEvent::Written => (RelayPhase::Reading, RelayAction::Read),
            RelayEvent::WriteFailed => stop(RelayFault::WriteFailed),
            _ => stop(RelayFault::OutOfOrder),
        },
        RelayPhase::Reading => match event {
            RelayEvent::Read(message) => (RelayPhase::Pushing, RelayAction::Push(message)),
            RelayEvent::ReadFailed => stop(RelayFault::ReadFailed),
            _ => stop(RelayFault::OutOfOrder),
        },
        RelayPhase::Pushing => match event {
            RelayEvent::Pushed => (RelayPhase::TakingOutbound, RelayAction::TakeOutbound),
            RelayEvent::PushRefused => stop(RelayFault::InboundRefused),
            _ => stop(RelayFault::OutOfOrder),
        },
    }
}

/// Stops the relay with `fault`.
fn stop<const SIZE: usize>(fault: RelayFault) -> (next: (RelayPhase, RelayAction<SIZE>))
    ensures
        next == halt::<SIZE>(fault),
{
    (RelayPhase::Stopped(fault), RelayAction::Stop(fault))
}

/// Turns what became of a push into the event that the relay decides on.
pub fn event_of_push<const SIZE: usize>(outcome: Offer) -> (event: RelayEvent<SIZE>)
    ensures
        event == push_event::<SIZE>(outcome),
{
    match outcome {
        Offer::Accepted => RelayEvent::Pushed,
        Offer::Full => RelayEvent::PushRefused,
        Offer::Closed => RelayEvent::PushRefused,
    }
}

/// What the relay does about `event` in `phase` when it makes the push
/// itself, and the push comes to `push`: where `event` calls for a push, the
/// relay goes on from its outcome.
pub open spec fn relay_run<const SIZE: usize>(
    phase: RelayPhase,
    event: RelayEvent<SIZE>,
    push: Offer,
) -> (RelayPhase, RelayAction<SIZE>) {
    let direct = relay_next(phase, event);
    match direct.1 {
        RelayAction::Push(_) => relay_next(direct.0, push_event(push)),
        _ => direct,
    }
}

/// The relay of one side of a session: the two handoff channels as the relay
/// sees them, and the phase that its cycle is in.
///
/// `send_to_game` is the inbound channel, on which the relay is the only
/// producer. `recv_from_game` is the outbound channel, on which the relay is
/// the only consumer.
#[verifier::reject_recursive_types(SIZE)]
pub struct PieceBoard<const SIZE: usize> {
    send_to_game: Sender<[u8; SIZE]>,
    recv_from_game: Receiver<[u8; SIZE]>,
    phase: RelayPhase,
}

impl<const SIZE: usize> PieceBoard<SIZE> {
    /// The phase that the relay is in.
    pub closed spec fn spec_phase(&self) -> RelayPhase {
        self.phase
    }

    /// A relay on the two channels, with no stream yet.
    pub fn new(send_to_game: Sender<[u8; SIZE]>, recv_from_game: Receiver<[u8; SIZE]>) -> (board:
        Self)
        ensures
            board.phase() == RelayPhase::Idle,
            board.inbound_end() == send_to_game,
            board.outbound_end() == recv_from_game,
    {
        PieceBoard { send_to_game, recv_from_game, phase: RelayPhase::Idle }
    }

    /// The phase that the relay is in.
    #[verifier::when_used_as_spec(spec_phase)]
    pub fn phase(&self) -> (phase: RelayPhase)
        ensures
            phase == self.spec_phase(),
    {
        self.phase
    }

    /// The relay's end of the outbound channel.
    pub closed spec fn outbound_end(&self) -> Receiver<[u8; SIZE]> {
        self.recv_from_game
    }

    /// The relay's end of the inbound channel.
    pub closed spec fn inbound_end(&self) -> Sender<[u8; SIZE]> {
        self.send_to_game
    }

    /// The outbound channel, for the driver to wait on when the relay has
    /// asked for the caller's next message. Nothing else of the relay is lent
    /// out, and nothing else changes.
    pub fn outbound(&mut self) -> (channel: &mut Receiver<[u8; SIZE]>)
        ensures
            *channel == old(self).outbound_end(),
            final(self).outbound_end() == *final(channel),
            final(self).inbound_end() == old(self).inbound_end(),
            final(self).phase() == old(self).phase(),
    {
        &mut self.recv_from_game
    }

    /// Takes the driver's report and says what to do next.
    ///
    /// The relay pushes a message that was read onto the inbound channel
    /// itself, without waiting, and goes on from there: the driver is never
    /// asked to push. Whether the channel takes the message is not the
    /// relay's to decide, so the result is one of two: the one for a push
    /// that was accepted, or the one for a push that was refused.
    pub fn step(&mut self, event: RelayEvent<SIZE>) -> (action: RelayAction<SIZE>)
        ensures
            (final(self).phase(), action) == relay_run(old(self).phase(), event, Offer::Accepted)
                || (final(self).phase(), action) == relay_run(
                old(self).phase(),
                event,
                Offer::Full,
            ),
            !(relay_next(old(self).phase(), event).1 is Push) ==> (final(self).phase(), action)
                == relay_next(old(self).phase(), event),
            !(action is Push),
            final(self).outbound_end() == old(self).outbound_end(),
            final(self).inbound_end() == old(self).inbound_end(),
    {
        let (phase, action) = decide(self.phase, event);
        match action {
            RelayAction::Push(message) => {
                let outcome = offer(&self.send_to_game, message);
                let (phase, action) = decide(phase, event_of_push(outcome));
                self.phase = phase;
                action
            },
            _ => {
                self.phase = phase;
                action
            },
        }
    }
}

} // verus!
