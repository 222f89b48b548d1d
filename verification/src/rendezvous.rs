//! Rendezvous: from a ticket to a dial target, and back.
//!
//! A ticket is a string that the host hands to the other player out of band.
//! It carries the host's address. Joining starts by reading the address out of
//! the ticket, and fails there, before anything touches the network, when the
//! string is no ticket.

use iroh_base::ticket::{NodeTicket, ParseError};
use iroh_base::NodeAddr;
use vstd::prelude::*;

verus! {

/// The address of a node, `iroh_base::NodeAddr`. Nothing inside it is visible
/// to the verifier: it is carried from the ticket to the transport.
#[verifier::external_type_specification]
#[verifier::external_body]
pub struct ExNodeAddr(NodeAddr);

/// Why a string was no ticket, `iroh_base::ticket::ParseError`.
#[verifier::external_type_specification]
#[verifier::external_body]
pub struct ExParseError(ParseError);

/// Why a session could not be established. None of these is retried.
#[derive(Clone, Copy, Debug, PartialEq, Eq, Structural)]
pub enum EstablishError {
    /// The ticket could not be read.
    MalformedTicket,
    /// The ticket was read, and the host could not be reached.
    PeerUnreachable,
    /// The host was reached, and it speaks another protocol.
    TagMismatch,
}

impl EstablishError {
    /// The words for this failure. Each failure has its own.
    pub open spec fn spec_describe(self) -> Seq<char> {
        match self {
            EstablishError::MalformedTicket => "the ticket could not be read"@,
            EstablishError::PeerUnreachable => "the host could not be reached"@,
            EstablishError::TagMismatch => "the host speaks another protocol"@,
        }
    }

    /// The words for this failure.
    pub fn describe(&self) -> (words: String)
        ensures
            words@ == self.spec_describe(),
    {
        match self {
            EstablishError::MalformedTicket => "the ticket could not be read".to_owned(),
            EstablishError::PeerUnreachable => "the host could not be reached".to_owned(),
            EstablishError::TagMismatch => "the host speaks another protocol".to_owned(),
        }
    }
}

/// The word that every ticket for a node starts with.
pub open spec fn ticket_kind() -> Seq<char> {
    seq!['n', 'o', 'd', 'e']
}

/// Whether `text` starts with the word that marks a ticket for a node.
pub open spec fn has_ticket_kind(text: Seq<char>) -> bool {
    text.len() >= 4 && text.subrange(0, 4) == ticket_kind()
}

/// The address that a ticket carries, or `None` where the string is no ticket:
/// what `NodeTicket`'s `FromStr` makes of the string.
pub uninterp spec fn dial_target(ticket: Seq<char>) -> Option<NodeAddr>;

/// Calls `<NodeTicket as FromStr>::from_str` and takes the address out of the
/// ticket with `NodeAddr::from`.
///
/// Claimed: the outcome is a function of the string alone, named
/// [`dial_target`]; and a string that is read as a ticket starts with the
/// word `node`, which `Ticket::deserialize` strips before it decodes the rest.
#[verifier::external_body]
fn read_ticket(ticket: &str) -> (read: Result<NodeAddr, ParseError>)
    ensures
        read is Ok <==> dial_target(ticket@) is Some,
        read is Ok ==> dial_target(ticket@) == Some(read->Ok_0),
        read is Ok ==> has_ticket_kind(ticket@),
{
    ticket.parse::<NodeTicket>().map(NodeAddr::from)
}

/// The text of the ticket for an address: what `NodeTicket`'s `Display` writes
/// for the ticket that `NodeTicket::new` makes of the address.
pub uninterp spec fn ticket_text(address: NodeAddr) -> Seq<char>;

/// Calls `NodeTicket::new` on the address and `to_string` on the ticket.
///
/// Claimed: the string is a function of the address alone, named
/// [`ticket_text`]: `Ticket::serialize` writes the word `node` and the fields
/// of the address in base32, and nothing else. And the string reads back as a
/// ticket, as the documentation of `NodeTicket` says of its `Display` and
/// `FromStr`. That it reads back as the same address is not claimed: the
/// scope of an IPv6 socket address is not written into a ticket.
#[verifier::external_body]
fn write_ticket(address: NodeAddr) -> (ticket: String)
    ensures
        ticket@ == ticket_text(address),
        dial_target(ticket@) is Some,
{
    NodeTicket::new(address).to_string()
}

/// What joining with `ticket` starts with: the address to dial, or the one
/// failure that a string can cause.
pub open spec fn join_outcome(ticket: Seq<char>) -> Result<NodeAddr, EstablishError> {
    match dial_target(ticket) {
        Some(address) => Ok(address),
        None => Err(EstablishError::MalformedTicket),
    }
}

/// Reads the host's address out of a ticket: the first step of joining, made
/// before anything touches the network.
///
/// A string that is no ticket gives [`EstablishError::MalformedTicket`], and
/// nothing else does.
pub fn join(ticket: &str) -> (target: Result<NodeAddr, EstablishError>)
    ensures
        target == join_outcome(ticket@),
        !has_ticket_kind(ticket@) ==> target == Err::<NodeAddr, EstablishError>(
            EstablishError::MalformedTicket,
        ),
{
    match read_ticket(ticket) {
        Ok(address) => Ok(address),
        Err(_) => Err(EstablishError::MalformedTicket),
    }
}

/// Writes the ticket for a host that can be reached at `address`.
///
/// The ticket is the text of that address and of no other input, and it is
/// never malformed: joining with it gives an address to dial.
pub fn issue_ticket(address: NodeAddr) -> (ticket: String)
    ensures
        ticket@ == ticket_text(address),
        join_outcome(ticket@) is Ok,
{
    write_ticket(address)
}

/// The three failures are told apart by their words.
pub proof fn lemma_failures_are_distinguished(one: EstablishError, other: EstablishError)
    ensures
        one.spec_describe() == other.spec_describe() <==> one == other,
{
    reveal_strlit("the ticket could not be read");
    reveal_strlit("the host could not be reached");
    reveal_strlit("the host speaks another protocol");
    assert("the ticket could not be read"@.len() == 28);
    assert("the host could not be reached"@.len() == 29);
    assert("the host speaks another protocol"@.len() == 32);
}

} // verus!
