//! Two-player networking for turn-based games.
//!
//! Two peers exchange fixed-size turn messages under strict alternation: a
//! peer sends exactly one message, then waits to receive exactly one, before
//! it may send again. The peer that holds a ticket moves first; the peer that
//! issued the ticket moves second.
//!
//! * [`turn`] is the turn discipline itself: the flag, the calls that change
//!   it, and the laws that follow.
//! * [`channel`] holds the single-slot handoff channels between the caller and
//!   the relay.
//! * [`interface`] is the caller-facing façade, [`NetcodeInterface`].
//! * [`protocol`] is the relay: the loop that moves one message in each
//!   direction per cycle, as a state machine that a driver runs.
//! * [`rendezvous`] turns tickets into dial targets and back.
//! * [`session`] is a model of a whole session, both peers and the wire
//!   between them, with the laws that hold of every reachable state.

pub mod channel;
pub mod interface;
pub mod protocol;
pub mod rendezvous;
pub mod session;
pub mod turn;

pub use channel::{Offer, Polled};
pub use interface::{Config, NetcodeInterface, RecvError, SendError};
pub use protocol::{PieceBoard, RelayAction, RelayEvent, RelayFault, RelayPhase, PIECEBOARD_ALPN};
pub use rendezvous::{issue_ticket, join, EstablishError};
pub use turn::{Role, TurnEvent, TurnGate};
