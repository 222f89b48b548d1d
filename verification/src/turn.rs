//! The turn discipline.
//!
//! Each side of a session holds one boolean, the turn flag: `true` while it is
//! this side's turn to send. A send hands the turn over, a successful receive
//! takes it back, and a poll that finds nothing leaves it alone.

use vstd::prelude::*;

verus! {

/// The part a peer plays in a session. It is fixed when the session is opened.
#[derive(Clone, Copy, Debug, PartialEq, Eq, Structural)]
pub enum Role {
    /// The peer that holds a ticket. It moves first.
    Initiator,
    /// The peer that issued the ticket. It moves second.
    Host,
}

impl Role {
    /// Whether a peer in this role starts with the turn.
    pub open spec fn spec_moves_first(self) -> bool {
        self is Initiator
    }

    /// Whether a peer in this role starts with the turn.
    #[verifier::when_used_as_spec(spec_moves_first)]
    pub fn moves_first(self) -> (first: bool)
        ensures
            first == self.spec_moves_first(),
    {
        match self {
            Role::Initiator => true,
            Role::Host => false,
        }
    }

    /// The role of the other peer.
    pub open spec fn spec_peer(self) -> Role {
        match self {
            Role::Initiator => Role::Host,
            Role::Host => Role::Initiator,
        }
    }

    /// The role of the other peer.
    #[verifier::when_used_as_spec(spec_peer)]
    pub fn peer(self) -> (other: Role)
        ensures
            other == self.spec_peer(),
    {
        match self {
            Role::Initiator => Role::Host,
            Role::Host => Role::Initiator,
        }
    }
}

/// What one call on the interface came to.
#[derive(Clone, Copy, Debug, PartialEq, Eq, Structural)]
pub enum TurnEvent {
    /// A send went through: the turn is over.
    Sent,
    /// A poll found the peer's message: the turn is back.
    Received,
    /// A poll found nothing.
    NotYet,
}

/// Whether the discipline allows the call behind `event` while the flag is `flag`:
/// a send needs the turn, a poll needs its absence.
pub open spec fn permits(flag: bool, event: TurnEvent) -> bool {
    match event {
        TurnEvent::Sent => flag,
        TurnEvent::Received | TurnEvent::NotYet => !flag,
    }
}

/// The flag after `event`.
pub open spec fn flag_after(flag: bool, event: TurnEvent) -> bool {
    match event {
        TurnEvent::Sent => false,
        TurnEvent::Received => true,
        TurnEvent::NotYet => flag,
    }
}

/// Whether `event` completes a turn, as a send and a successful receive do.
pub open spec fn completes(event: TurnEvent) -> bool {
    event !is NotYet
}

/// The flag after all of `calls`, made in order from `flag`.
pub open spec fn flag_after_all(flag: bool, calls: Seq<TurnEvent>) -> bool
    decreases calls.len(),
{
    if calls.len() == 0 {
        flag
    } else {
        flag_after(flag_after_all(flag, calls.drop_last()), calls.last())
    }
}

/// Whether every call of `calls`, made in order from `flag`, is allowed when it is made.
pub open spec fn consistent(flag: bool, calls: Seq<TurnEvent>) -> bool
    decreases calls.len(),
{
    calls.len() == 0 || (consistent(flag, calls.drop_last()) && permits(
        flag_after_all(flag, calls.drop_last()),
        calls.last(),
    ))
}

/// How many of `calls` complete a turn.
pub open spec fn completions(calls: Seq<TurnEvent>) -> nat
    decreases calls.len(),
{
    if calls.len() == 0 {
        0
    } else {
        completions(calls.drop_last()) + (if completes(calls.last()) {
            1nat
        } else {
            0nat
        })
    }
}

/// After any run of allowed calls the flag is the initial flag, flipped once
/// for every completed turn: it differs from the initial flag exactly when the
/// number of completed turns is odd.
pub proof fn lemma_flag_follows_parity(initial: bool, calls: Seq<TurnEvent>)
    requires
        consistent(initial, calls),
    ensures
        flag_after_all(initial, calls) == (initial != (completions(calls) % 2 == 1)),
    decreases calls.len(),
{
    if calls.len() > 0 {
        lemma_flag_follows_parity(initial, calls.drop_last());
    }
}

/// Polling is idempotent: any number of polls that find nothing is allowed
/// while the turn is the peer's, and leaves the flag as it was.
pub proof fn lemma_idle_polls_change_nothing(calls: Seq<TurnEvent>)
    requires
        forall|i: int| 0 <= i < calls.len() ==> calls[i] is NotYet,
    ensures
        consistent(false, calls),
        flag_after_all(false, calls) == false,
        completions(calls) == 0,
    decreases calls.len(),
{
    if calls.len() > 0 {
        lemma_idle_polls_change_nothing(calls.drop_last());
    }
}

/// Once a send has gone through, the turn stays away for as long as no
/// receive succeeds.
proof fn lemma_turn_stays_away(flag: bool, between: Seq<TurnEvent>)
    requires
        forall|i: int| 0 <= i < between.len() ==> !(between[i] is Received),
        consistent(flag, seq![TurnEvent::Sent] + between),
    ensures
        flag_after_all(flag, seq![TurnEvent::Sent] + between) == false,
    decreases between.len(),
{
    let calls = seq![TurnEvent::Sent] + between;
    if between.len() == 0 {
        assert(calls.last() is Sent);
    } else {
        assert(calls.drop_last() =~= seq![TurnEvent::Sent] + between.drop_last());
        assert(calls.last() == between.last());
        lemma_turn_stays_away(flag, between.drop_last());
    }
}

/// Alternation: after a send, a second send is never allowed until a receive
/// has succeeded, whatever polls were made in between.
pub proof fn lemma_no_second_send(flag: bool, between: Seq<TurnEvent>)
    requires
        forall|i: int| 0 <= i < between.len() ==> !(between[i] is Received),
    ensures
        !consistent(flag, (seq![TurnEvent::Sent] + between).push(TurnEvent::Sent)),
{
    let before = seq![TurnEvent::Sent] + between;
    let calls = before.push(TurnEvent::Sent);
    assert(calls.drop_last() =~= before);
    assert(calls.last() is Sent);
    if consistent(flag, before) {
        lemma_turn_stays_away(flag, between);
    }
}

/// The turn flag of one side of a session, together with the calls that made
/// it what it is.
///
/// The calls are kept for the proofs alone. Every gate that exists was reached
/// by allowed calls, and its flag is the one that they lead to.
pub struct TurnGate {
    flag: bool,
    first: Ghost<bool>,
    calls: Ghost<Seq<TurnEvent>>,
}

impl TurnGate {
    #[verifier::type_invariant]
    spec fn reached_by_allowed_calls(self) -> bool {
        &&& consistent(self.first@, self.calls@)
        &&& self.flag == flag_after_all(self.first@, self.calls@)
    }

    /// Whether it is this side's turn to send.
    pub closed spec fn spec_my_turn(&self) -> bool {
        self.flag
    }

    /// The flag that this gate was opened with.
    pub closed spec fn initial(&self) -> bool {
        self.first@
    }

    /// The calls that were made on this gate, oldest first.
    pub closed spec fn history(&self) -> Seq<TurnEvent> {
        self.calls@
    }

    /// A new gate for a peer in `role`. The initiator starts with the turn,
    /// the host without it.
    pub fn open(role: Role) -> (gate: Self)
        ensures
            gate.my_turn() == role.moves_first(),
            gate.initial() == role.moves_first(),
            gate.history() == Seq::<TurnEvent>::empty(),
    {
        let flag = role.moves_first();
        TurnGate { flag, first: Ghost(flag), calls: Ghost(Seq::empty()) }
    }

    /// Whether it is this side's turn to send.
    ///
    /// The flag is the initial one, flipped once for every turn completed so
    /// far.
    #[verifier::when_used_as_spec(spec_my_turn)]
    pub fn my_turn(&self) -> (mine: bool)
        ensures
            mine == self.spec_my_turn(),
            mine == (self.initial() != (completions(self.history()) % 2 == 1)),
            consistent(self.initial(), self.history()),
    {
        proof {
            use_type_invariant(self);
            lemma_flag_follows_parity(self.first@, self.calls@);
        }
        self.flag
    }

    /// Records a call that the discipline allows.
    pub fn record(&mut self, event: TurnEvent)
        requires
            permits(old(self).my_turn(), event),
        ensures
            final(self).my_turn() == flag_after(old(self).my_turn(), event),
            final(self).history() == old(self).history().push(event),
            final(self).initial() == old(self).initial(),
    {
        proof {
            use_type_invariant(&*self);
        }
        let flag = match event {
            TurnEvent::Sent => false,
            TurnEvent::Received => true,
            TurnEvent::NotYet => self.flag,
        };
        let ghost calls = self.calls@.push(event);
        proof {
            assert(calls.drop_last() =~= self.calls@);
        }
        *self = TurnGate { flag, first: self.first, calls: Ghost(calls) };
    }
}

} // verus!
