//! A model of a whole session: both callers, both relays, the four handoff
//! channels and the stream between the peers.
//!
//! Each part of the model moves as the code of that part does: a caller's
//! flag by [`flag_after`], a send by [`send_outcome`], a poll by
//! [`poll_outcome`], a relay by [`relay_next`]. The stream is taken to be
//! reliable and ordered, and both sides to be alive. What is shown here holds
//! of every state that such a session can reach while both callers keep to
//! the turn discipline, in whatever order the six parties take their steps.

use crate::channel::{Offer, Polled};
use crate::interface::{poll_event, poll_outcome, send_outcome};
use crate::protocol::{push_event, relay_next, RelayAction, RelayEvent, RelayPhase};
use crate::turn::{flag_after, permits, Role, TurnEvent};
use vstd::prelude::*;

verus! {

/// Offering `message` to a handoff channel that holds `slot`: the channel
/// afterwards, and what became of the offer. A channel has room for one.
pub open spec fn offer_to<const SIZE: usize>(slot: Option<[u8; SIZE]>, message: [u8; SIZE]) -> (
    Option<[u8; SIZE]>,
    Offer,
) {
    match slot {
        None => (Some(message), Offer::Accepted),
        Some(_) => (slot, Offer::Full),
    }
}

/// Polling a handoff channel that holds `slot`: the channel afterwards, and
/// what the poll found.
pub open spec fn poll_from<const SIZE: usize>(slot: Option<[u8; SIZE]>) -> (
    Option<[u8; SIZE]>,
    Polled<SIZE>,
) {
    match slot {
        Some(message) => (None, Polled::Message(message)),
        None => (None, Polled::Empty),
    }
}

/// One peer: its caller, its two handoff channels and its relay.
pub struct Side<const SIZE: usize> {
    /// The caller's turn flag.
    pub my_turn: bool,
    /// The channel from the caller to the relay.
    pub outbound: Option<[u8; SIZE]>,
    /// The channel from the relay to the caller.
    pub inbound: Option<[u8; SIZE]>,
    /// The phase of the relay.
    pub phase: RelayPhase,
    /// What the relay asked its driver to do, and the driver has not done yet.
    pub pending: RelayAction<SIZE>,
    /// Every turn that the caller has sent, oldest first.
    pub sent: Seq<[u8; SIZE]>,
    /// Every turn that the caller has received, oldest first.
    pub received: Seq<[u8; SIZE]>,
}

/// A session: the two peers, and what is on the stream in each direction.
pub struct Session<const SIZE: usize> {
    /// The peer that joined with a ticket.
    pub initiator: Side<SIZE>,
    /// The peer that issued the ticket.
    pub host: Side<SIZE>,
    /// What the initiator's relay has written and the host's has not read.
    pub to_host: Seq<[u8; SIZE]>,
    /// What the host's relay has written and the initiator's has not read.
    pub to_initiator: Seq<[u8; SIZE]>,
}

/// One step of one of the six parties.
pub enum Step<const SIZE: usize> {
    /// The caller on that side sends a turn.
    Send(Role, [u8; SIZE]),
    /// The caller on that side polls for a turn.
    Poll(Role),
    /// The relay's driver on that side does what the relay asked for, if it
    /// can; a driver that waits for a message that is not there does nothing.
    Relay(Role),
}

impl<const SIZE: usize> Side<SIZE> {
    /// A peer in `role` whose stream has just been opened.
    pub open spec fn fresh(role: Role) -> Self {
        let started = relay_next::<SIZE>(RelayPhase::Idle, RelayEvent::Established(role));
        Side {
            my_turn: role.moves_first(),
            outbound: None,
            inbound: None,
            phase: started.0,
            pending: started.1,
            sent: Seq::empty(),
            received: Seq::empty(),
        }
    }

    /// The relay after its driver reports `event`.
    pub open spec fn relayed(self, event: RelayEvent<SIZE>) -> Self {
        let next = relay_next(self.phase, event);
        Side { phase: next.0, pending: next.1, ..self }
    }

    /// The caller sends `turn`.
    pub open spec fn send(self, turn: [u8; SIZE]) -> Self {
        let offered = offer_to(self.outbound, turn);
        if send_outcome(offered.1) is Ok {
            Side {
                my_turn: flag_after(self.my_turn, TurnEvent::Sent),
                outbound: offered.0,
                sent: self.sent.push(turn),
                ..self
            }
        } else {
            self
        }
    }

    /// The caller polls.
    pub open spec fn poll(self) -> Self {
        let polled = poll_from(self.inbound);
        let outcome = poll_outcome(polled.1);
        Side {
            my_turn: flag_after(self.my_turn, poll_event(outcome)),
            inbound: polled.0,
            received: match outcome {
                Ok(turn) => self.received.push(turn),
                Err(_) => self.received,
            },
            ..self
        }
    }
}

impl<const SIZE: usize> Session<SIZE> {
    /// The session when both streams have just been opened.
    pub open spec fn start() -> Self {
        Session {
            initiator: Side::fresh(Role::Initiator),
            host: Side::fresh(Role::Host),
            to_host: Seq::empty(),
            to_initiator: Seq::empty(),
        }
    }

    /// The peer that plays `role`.
    pub open spec fn side(self, role: Role) -> Side<SIZE> {
        match role {
            Role::Initiator => self.initiator,
            Role::Host => self.host,
        }
    }

    /// What is on the stream from the peer that plays `role` to the other.
    pub open spec fn wire_from(self, role: Role) -> Seq<[u8; SIZE]> {
        match role {
            Role::Initiator => self.to_host,
            Role::Host => self.to_initiator,
        }
    }

    /// The session with the peer that plays `role` replaced.
    pub open spec fn with_side(self, role: Role, side: Side<SIZE>) -> Self {
        match role {
            Role::Initiator => Session { initiator: side, ..self },
            Role::Host => Session { host: side, ..self },
        }
    }

    /// The session with the stream from the peer that plays `role` replaced.
    pub open spec fn with_wire_from(self, role: Role, wire: Seq<[u8; SIZE]>) -> Self {
        match role {
            Role::Initiator => Session { to_host: wire, ..self },
            Role::Host => Session { to_initiator: wire, ..self },
        }
    }

    /// The relay's driver on the side of `role` does what the relay asked for.
    pub open spec fn relay(self, role: Role) -> Self {
        let side = self.side(role);
        match side.pending {
            RelayAction::TakeOutbound => match side.outbound {
                Some(turn) => self.with_side(
                    role,
                    Side { outbound: None, ..side }.relayed(RelayEvent::Outbound(turn)),
                ),
                None => self,
            },
            RelayAction::Write(turn) => self.with_wire_from(
                role,
                self.wire_from(role).push(turn),
            ).with_side(role, side.relayed(RelayEvent::Written)),
            RelayAction::Read => {
                let wire = self.wire_from(role.peer());
                if wire.len() > 0 {
                    self.with_wire_from(role.peer(), wire.drop_first()).with_side(
                        role,
                        side.relayed(RelayEvent::Read(wire.first())),
                    )
                } else {
                    self
                }
            },
            RelayAction::Push(turn) => {
                let offered = offer_to(side.inbound, turn);
                self.with_side(
                    role,
                    Side { inbound: offered.0, ..side }.relayed(push_event(offered.1)),
                )
            },
            RelayAction::Stop(_) => self,
        }
    }

    /// Whether the turn discipline allows `step` now. It binds the callers
    /// alone: a relay may always take its step.
    pub open spec fn allows(self, step: Step<SIZE>) -> bool {
        match step {
            Step::Send(role, _) => permits(self.side(role).my_turn, TurnEvent::Sent),
            Step::Poll(role) => permits(self.side(role).my_turn, TurnEvent::NotYet),
            Step::Relay(_) => true,
        }
    }

    /// The session after `step`.
    pub open spec fn after(self, step: Step<SIZE>) -> Self {
        match step {
            Step::Send(role, turn) => self.with_side(role, self.side(role).send(turn)),
            Step::Poll(role) => self.with_side(role, self.side(role).poll()),
            Step::Relay(role) => self.relay(role),
        }
    }

    /// The session after all of `steps`, taken in order from the start.
    pub open spec fn after_all(steps: Seq<Step<SIZE>>) -> Self
        decreases steps.len(),
    {
        if steps.len() == 0 {
            Self::start()
        } else {
            Self::after_all(steps.drop_last()).after(steps.last())
        }
    }

    /// Whether every step of `steps`, taken in order from the start, is
    /// allowed when it is taken.
    pub open spec fn lawful(steps: Seq<Step<SIZE>>) -> bool
        decreases steps.len(),
    {
        steps.len() == 0 || (Self::lawful(steps.drop_last()) && Self::after_all(
            steps.drop_last(),
        ).allows(steps.last()))
    }
}

/// How far the turn that is under way has come on its way from the caller
/// that sends it to the caller that receives it.
#[derive(Clone, Copy, Debug, PartialEq, Eq, Structural)]
pub enum Hop {
    /// Not sent yet: the sender's caller holds the turn.
    WithCaller,
    /// In the sender's outbound channel.
    InOutbound,
    /// With the sender's relay, which is to write it.
    BeingWritten,
    /// On the stream.
    OnStream,
    /// With the receiver's relay, which is to push it.
    BeingPushed,
    /// In the receiver's inbound channel.
    InInbound,
}

/// The relay at rest before a take.
pub open spec fn taking<const SIZE: usize>() -> (RelayPhase, RelayAction<SIZE>) {
    (RelayPhase::TakingOutbound, RelayAction::TakeOutbound)
}

/// The relay at rest before a read.
pub open spec fn reading<const SIZE: usize>() -> (RelayPhase, RelayAction<SIZE>) {
    (RelayPhase::Reading, RelayAction::Read)
}

impl<const SIZE: usize> Session<SIZE> {
    /// How far a turn of the peer that plays `mover` has come, if one of its
    /// turns is under way or it is about to send one.
    pub open spec fn hop_of(self, mover: Role) -> Option<Hop> {
        let from = self.side(mover);
        let to = self.side(mover.peer());
        if from.my_turn {
            Some(Hop::WithCaller)
        } else if from.outbound is Some {
            Some(Hop::InOutbound)
        } else if from.pending is Write {
            Some(Hop::BeingWritten)
        } else if self.wire_from(mover).len() > 0 {
            Some(Hop::OnStream)
        } else if to.pending is Push {
            Some(Hop::BeingPushed)
        } else if to.inbound is Some {
            Some(Hop::InInbound)
        } else {
            None
        }
    }

    /// The peer whose move it is: the one that is about to send, or whose
    /// turn is on its way.
    pub open spec fn mover(self) -> Role {
        if self.hop_of(Role::Initiator) is Some {
            Role::Initiator
        } else {
            Role::Host
        }
    }

    /// Whether the session has the one shape that goes with `hop` of a turn
    /// of `mover`: everything but the one place where the turn is stands
    /// empty and at rest, and both callers have received all that was sent to
    /// them, but for the turn under way.
    pub open spec fn shaped(self, mover: Role, hop: Hop) -> bool {
        let from = self.side(mover);
        let to = self.side(mover.peer());
        let turn = from.sent.last();
        &&& from.my_turn == (hop is WithCaller)
        &&& !to.my_turn
        &&& from.outbound == (if hop is InOutbound {
            Some(turn)
        } else {
            None
        })
        &&& to.outbound is None
        &&& (from.phase, from.pending) == (match hop {
            Hop::WithCaller | Hop::InOutbound => taking(),
            Hop::BeingWritten => (RelayPhase::Writing, RelayAction::Write(turn)),
            _ => reading(),
        })
        &&& self.wire_from(mover) =~= (if hop is OnStream {
            seq![turn]
        } else {
            Seq::empty()
        })
        &&& self.wire_from(mover.peer()) =~= Seq::empty()
        &&& (to.phase, to.pending) == (match hop {
            Hop::BeingPushed => (RelayPhase::Pushing, RelayAction::Push(turn)),
            Hop::InInbound => taking(),
            _ => reading(),
        })
        &&& to.inbound == (if hop is InInbound {
            Some(turn)
        } else {
            None
        })
        &&& from.inbound is None
        &&& !(hop is WithCaller) ==> from.sent.len() > 0
        &&& to.received =~= (if hop is WithCaller {
            from.sent
        } else {
            from.sent.drop_last()
        })
        &&& from.received =~= to.sent
        &&& self.initiator.sent.len() == self.host.sent.len() + (if mover.moves_first() == (
        hop is WithCaller) {
            0int
        } else {
            1int
        })
    }

    /// Whether the two peers are in step: exactly one turn is under way or
    /// about to be sent, and the session has the shape that goes with where
    /// that turn is.
    pub open spec fn in_step(self) -> bool {
        self.hop_of(self.mover()) matches Some(hop) && self.shaped(self.mover(), hop)
    }

    /// A session starts in step: the initiator is about to send.
    pub proof fn lemma_starts_in_step()
        ensures
            Self::start().in_step(),
            Self::start().mover() == Role::Initiator,
    {
        let start = Self::start();
        assert(start.hop_of(Role::Initiator) == Some(Hop::WithCaller));
        assert(start.shaped(Role::Initiator, Hop::WithCaller));
    }

    /// An allowed step keeps the peers in step.
    pub proof fn lemma_step_keeps_in_step(self, step: Step<SIZE>)
        requires
            self.in_step(),
            self.allows(step),
        ensures
            self.after(step).in_step(),
    {
        let mover = self.mover();
        let hop = self.hop_of(mover)->Some_0;
        let next = self.after(step);
        match step {
            Step::Send(role, turn) => {
                if role == mover {
                    assert(next.side(mover).sent.last() == turn);
                    assert(next.side(mover).sent.drop_last() =~= self.side(mover).sent);
                    assert(next.hop_of(mover) == Some(Hop::InOutbound));
                    assert(next.shaped(mover, Hop::InOutbound));
                }
            },
            Step::Poll(role) => {
                if role == mover.peer() && hop is InInbound {
                    assert(next.hop_of(mover) is None);
                    assert(next.hop_of(role) == Some(Hop::WithCaller));
                    assert(next.mover() == role);
                    assert(next.shaped(role, Hop::WithCaller));
                } else {
                    assert(next.hop_of(mover) == Some(hop));
                    assert(next.shaped(mover, hop));
                }
            },
            Step::Relay(role) => {
                if role == mover {
                    if hop is InOutbound {
                        assert(next.hop_of(mover) == Some(Hop::BeingWritten));
                        assert(next.shaped(mover, Hop::BeingWritten));
                    } else if hop is BeingWritten {
                        assert(next.hop_of(mover) == Some(Hop::OnStream));
                        assert(next.shaped(mover, Hop::OnStream));
                    } else {
                        assert(next.hop_of(mover) == Some(hop));
                        assert(next.shaped(mover, hop));
                    }
                } else {
                    if hop is OnStream {
                        assert(next.hop_of(mover) == Some(Hop::BeingPushed));
                        assert(next.shaped(mover, Hop::BeingPushed));
                    } else if hop is BeingPushed {
                        assert(next.hop_of(mover) == Some(Hop::InInbound));
                        assert(next.shaped(mover, Hop::InInbound));
                    } else {
                        assert(next.hop_of(mover) == Some(hop));
                        assert(next.shaped(mover, hop));
                    }
                }
            },
        }
    }

    /// Every lawful run leaves the peers in step.
    pub proof fn lemma_lawful_runs_stay_in_step(steps: Seq<Step<SIZE>>)
        requires
            Self::lawful(steps),
        ensures
            Self::after_all(steps).in_step(),
        decreases steps.len(),
    {
        if steps.len() == 0 {
            Self::lemma_starts_in_step();
        } else {
            Self::lemma_lawful_runs_stay_in_step(steps.drop_last());
            Self::after_all(steps.drop_last()).lemma_step_keeps_in_step(steps.last());
        }
    }

    /// Round trip: in every lawful run, what a caller has received is, turn
    /// by turn and byte for byte, what the other caller sent, in the order in
    /// which it was sent. Nothing is lost, doubled, changed or overtaken; at
    /// most the last turn sent is still under way.
    pub proof fn lemma_turns_arrive_unchanged(steps: Seq<Step<SIZE>>, role: Role)
        requires
            Self::lawful(steps),
        ensures
            ({
                let sent = Self::after_all(steps).side(role).sent;
                let received = Self::after_all(steps).side(role.peer()).received;
                &&& received.len() <= sent.len() <= received.len() + 1
                &&& forall|k: int| 0 <= k < received.len() ==> received[k] == sent[k]
            }),
    {
        Self::lemma_lawful_runs_stay_in_step(steps);
    }

    /// The handoff channels never overflow: in every lawful run, a caller
    /// that holds the turn finds its outbound channel empty, so that its send
    /// is accepted, and a relay that is to push finds the inbound channel
    /// empty, so that its push is accepted. No relay ever stops.
    pub proof fn lemma_handoffs_never_overflow(steps: Seq<Step<SIZE>>, role: Role)
        requires
            Self::lawful(steps),
        ensures
            ({
                let side = Self::after_all(steps).side(role);
                &&& side.my_turn ==> side.outbound is None
                &&& side.pending is Push ==> side.inbound is None
                &&& !(side.phase is Stopped)
                &&& !(side.pending is Stop)
            }),
    {
        Self::lemma_lawful_runs_stay_in_step(steps);
    }

    /// A send that the discipline allows always goes through: the turn is
    /// over, and the turn sent is the last of those sent.
    pub proof fn lemma_allowed_send_goes_through(
        steps: Seq<Step<SIZE>>,
        role: Role,
        turn: [u8; SIZE],
    )
        requires
            Self::lawful(steps),
            Self::after_all(steps).allows(Step::Send(role, turn)),
        ensures
            ({
                let before = Self::after_all(steps).side(role);
                let after = Self::after_all(steps).after(Step::Send(role, turn)).side(role);
                &&& !after.my_turn
                &&& after.sent == before.sent.push(turn)
                &&& after.outbound == Some(turn)
            }),
    {
        Self::lemma_lawful_runs_stay_in_step(steps);
    }

    /// Polling is idempotent: while nothing has arrived, a poll changes nothing
    /// at all, however often it is made.
    pub proof fn lemma_idle_poll_changes_nothing(self, role: Role)
        requires
            self.allows(Step::Poll(role)),
            self.side(role).inbound is None,
        ensures
            self.after(Step::Poll(role)) == self,
    {
        let side = self.side(role);
        assert(side.poll() == side);
    }

    /// One turn at a time: in every lawful run, the two callers never hold
    /// the turn together, and the initiator has sent as many turns as the
    /// host, or one more.
    pub proof fn lemma_one_turn_at_a_time(steps: Seq<Step<SIZE>>)
        requires
            Self::lawful(steps),
        ensures
            ({
                let session = Self::after_all(steps);
                &&& !(session.initiator.my_turn && session.host.my_turn)
                &&& session.host.sent.len() <= session.initiator.sent.len()
                    <= session.host.sent.len() + 1
            }),
    {
        Self::lemma_lawful_runs_stay_in_step(steps);
    }

    /// The one step that moves a turn of `mover` on from `hop`: the caller's
    /// send of `turn`, then two steps of the sender's relay, two of the
    /// receiver's, and the receiver's poll.
    pub open spec fn carrier(mover: Role, hop: Hop, turn: [u8; SIZE]) -> Step<SIZE> {
        match hop {
            Hop::WithCaller => Step::Send(mover, turn),
            Hop::InOutbound | Hop::BeingWritten => Step::Relay(mover),
            Hop::OnStream | Hop::BeingPushed => Step::Relay(mover.peer()),
            Hop::InInbound => Step::Poll(mover.peer()),
        }
    }

    /// Where a turn of `mover` is after it has moved on from `hop`. After the
    /// last hop the turn has arrived, and the move is the other peer's.
    pub open spec fn onward(mover: Role, hop: Hop) -> (Role, Hop) {
        match hop {
            Hop::WithCaller => (mover, Hop::InOutbound),
            Hop::InOutbound => (mover, Hop::BeingWritten),
            Hop::BeingWritten => (mover, Hop::OnStream),
            Hop::OnStream => (mover, Hop::BeingPushed),
            Hop::BeingPushed => (mover, Hop::InInbound),
            Hop::InInbound => (mover.peer(), Hop::WithCaller),
        }
    }

    /// A turn can always move on: wherever it is, the step that carries it is
    /// allowed and takes it one hop further. The send adds `turn` to what the
    /// sender has sent, the poll adds the turn under way to what the receiver
    /// has received, and no other step touches what was sent or received.
    pub proof fn lemma_turn_moves_on(self, mover: Role, hop: Hop, turn: [u8; SIZE])
        requires
            self.shaped(mover, hop),
        ensures
            self.allows(Self::carrier(mover, hop, turn)),
            ({
                let next = self.after(Self::carrier(mover, hop, turn));
                let onward = Self::onward(mover, hop);
                &&& next.shaped(onward.0, onward.1)
                &&& next.side(mover).sent == (if hop is WithCaller {
                    self.side(mover).sent.push(turn)
                } else {
                    self.side(mover).sent
                })
                &&& next.side(mover.peer()).received == (if hop is InInbound {
                    self.side(mover.peer()).received.push(self.side(mover).sent.last())
                } else {
                    self.side(mover.peer()).received
                })
                &&& next.side(mover.peer()).sent == self.side(mover.peer()).sent
                &&& next.side(mover).received == self.side(mover).received
            }),
    {
        let next = self.after(Self::carrier(mover, hop, turn));
        if hop is WithCaller {
            assert(next.side(mover).sent.last() == turn);
            assert(next.side(mover).sent.drop_last() =~= self.side(mover).sent);
        }
    }

    /// A run goes on one step at a time.
    pub proof fn lemma_run_goes_on(steps: Seq<Step<SIZE>>, step: Step<SIZE>)
        ensures
            Self::after_all(steps.push(step)) == Self::after_all(steps).after(step),
            Self::lawful(steps.push(step)) == (Self::lawful(steps) && Self::after_all(
                steps,
            ).allows(step)),
    {
        assert(steps.push(step).drop_last() =~= steps);
    }

    /// The six steps that take `turn` from the caller on the side of `mover`
    /// to the caller on the other side.
    pub open spec fn passage(mover: Role, turn: [u8; SIZE]) -> Seq<Step<SIZE>> {
        seq![
            Step::Send(mover, turn),
            Step::Relay(mover),
            Step::Relay(mover),
            Step::Relay(mover.peer()),
            Step::Relay(mover.peer()),
            Step::Poll(mover.peer()),
        ]
    }

    /// Whether the session has the shape that goes with `hop` of a turn of
    /// `mover`. This is [`Session::shaped`], kept folded.
    #[verifier::opaque]
    spec fn stands(self, mover: Role, hop: Hop) -> bool {
        self.shaped(mover, hop)
    }

    /// One hop of a passage, as a step added to a run.
    proof fn lemma_run_moves_on(steps: Seq<Step<SIZE>>, mover: Role, hop: Hop, turn: [u8; SIZE])
        requires
            Self::lawful(steps),
            Self::after_all(steps).stands(mover, hop),
        ensures
            ({
                let longer = steps.push(Self::carrier(mover, hop, turn));
                let before = Self::after_all(steps);
                let after = Self::after_all(longer);
                let onward = Self::onward(mover, hop);
                &&& Self::lawful(longer)
                &&& after.stands(onward.0, onward.1)
                &&& after.side(mover).sent == (if hop is WithCaller {
                    before.side(mover).sent.push(turn)
                } else {
                    before.side(mover).sent
                })
                &&& after.side(mover.peer()).received == (if hop is InInbound {
                    before.side(mover.peer()).received.push(before.side(mover).sent.last())
                } else {
                    before.side(mover.peer()).received
                })
                &&& after.side(mover.peer()).sent == before.side(mover.peer()).sent
                &&& after.side(mover).received == before.side(mover).received
            }),
    {
        reveal(Session::stands);
        Self::after_all(steps).lemma_turn_moves_on(mover, hop, turn);
        Self::lemma_run_goes_on(steps, Self::carrier(mover, hop, turn));
    }

    /// Where a turn is after `hops` steps of its passage.
    spec fn hop_after(hops: int) -> Hop {
        if hops <= 0 {
            Hop::WithCaller
        } else if hops == 1 {
            Hop::InOutbound
        } else if hops == 2 {
            Hop::BeingWritten
        } else if hops == 3 {
            Hop::OnStream
        } else if hops == 4 {
            Hop::BeingPushed
        } else {
            Hop::InInbound
        }
    }

    /// The first `hops` steps of a passage take the turn that many hops on.
    proof fn lemma_passage_so_far(
        steps: Seq<Step<SIZE>>,
        mover: Role,
        turn: [u8; SIZE],
        hops: int,
    )
        requires
            Self::lawful(steps),
            Self::after_all(steps).side(mover).my_turn,
            0 <= hops <= 5,
        ensures
            ({
                let so_far = steps + Self::passage(mover, turn).take(hops);
                let before = Self::after_all(steps);
                let now = Self::after_all(so_far);
                &&& Self::lawful(so_far)
                &&& now.stands(mover, Self::hop_after(hops))
                &&& now.side(mover).sent == (if hops == 0 {
                    before.side(mover).sent
                } else {
                    before.side(mover).sent.push(turn)
                })
                &&& now.side(mover.peer()).received == before.side(mover.peer()).received
                &&& now.side(mover.peer()).sent == before.side(mover.peer()).sent
                &&& now.side(mover).received == before.side(mover).received
            }),
        decreases hops,
    {
        let passage = Self::passage(mover, turn);
        if hops == 0 {
            assert(steps + passage.take(0) =~= steps);
            assert(Self::after_all(steps).stands(mover, Hop::WithCaller)) by {
                reveal(Session::stands);
                Self::lemma_lawful_runs_stay_in_step(steps);
            }
        } else {
            let shorter = steps + passage.take(hops - 1);
            let hop = Self::hop_after(hops - 1);
            Self::lemma_passage_so_far(steps, mover, turn, hops - 1);
            Self::lemma_run_moves_on(shorter, mover, hop, turn);
            assert(passage[hops - 1] == Self::carrier(mover, hop, turn));
            assert(steps + passage.take(hops) =~= shorter.push(passage[hops - 1]));
        }
    }

    /// A turn gets through: after any lawful run that leaves the turn with
    /// the caller on the side of `mover`, the six steps of a passage are
    /// lawful, and they leave the other caller with the turn and with `turn`
    /// as the last it has received.
    pub proof fn lemma_turn_gets_through(steps: Seq<Step<SIZE>>, mover: Role, turn: [u8; SIZE])
        requires
            Self::lawful(steps),
            Self::after_all(steps).side(mover).my_turn,
        ensures
            Self::lawful(steps + Self::passage(mover, turn)),
            ({
                let before = Self::after_all(steps);
                let after = Self::after_all(steps + Self::passage(mover, turn));
                &&& after.side(mover.peer()).my_turn
                &&& !after.side(mover).my_turn
                &&& after.side(mover).sent == before.side(mover).sent.push(turn)
                &&& after.side(mover.peer()).received == before.side(mover.peer()).received.push(
                    turn,
                )
                &&& after.side(mover.peer()).sent == before.side(mover.peer()).sent
                &&& after.side(mover).received == before.side(mover).received
            }),
    {
        let passage = Self::passage(mover, turn);
        let nearly = steps + passage.take(5);
        Self::lemma_passage_so_far(steps, mover, turn, 5);
        Self::lemma_run_moves_on(nearly, mover, Hop::InInbound, turn);
        assert(passage[5] == Self::carrier(mover, Hop::InInbound, turn));
        assert(steps + passage =~= nearly.push(passage[5]));
        let after = Self::after_all(steps + passage);
        assert(after.side(mover.peer()).my_turn && !after.side(mover).my_turn) by {
            reveal(Session::stands);
        }
    }

    /// The steps of one round: the initiator sends `first`, the host receives
    /// it and answers with `second`, and the initiator receives that.
    pub open spec fn round(first: [u8; SIZE], second: [u8; SIZE]) -> Seq<Step<SIZE>> {
        Self::passage(Role::Initiator, first) + Self::passage(Role::Host, second)
    }

    /// A round goes round: its steps are lawful, each caller ends with the
    /// other's turn as the only one it has received, and both flags are back
    /// where they started.
    pub proof fn lemma_a_round_goes_round(first: [u8; SIZE], second: [u8; SIZE])
        ensures
            Self::lawful(Self::round(first, second)),
            ({
                let end = Self::after_all(Self::round(first, second));
                &&& end.host.received == seq![first]
                &&& end.initiator.received == seq![second]
                &&& end.initiator.my_turn == Self::start().initiator.my_turn
                &&& end.host.my_turn == Self::start().host.my_turn
            }),
    {
        let there = Self::passage(Role::Initiator, first);
        let back = Self::passage(Role::Host, second);
        let none = Seq::<Step<SIZE>>::empty();
        assert(none + there =~= there);
        Self::lemma_turn_gets_through(none, Role::Initiator, first);
        Self::lemma_turn_gets_through(there, Role::Host, second);
        let end = Self::after_all(there + back);
        assert(end.host.received =~= seq![first]);
        assert(end.initiator.received =~= seq![second]);
    }
}

} // verus!
