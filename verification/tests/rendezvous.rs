use iroh_base::{NodeAddr, PublicKey};
use sfn_tpn::{issue_ticket, join, EstablishError};

const NODE_ID: [u8; 32] = [
    174, 88, 255, 136, 51, 36, 26, 200, 45, 111, 247, 97, 16, 70, 237, 103, 181, 7, 45, 20, 44, 88,
    141, 0, 99, 233, 66, 217, 167, 85, 2, 182,
];

const BARE_TICKET: &str = "nodeacxfr74igmsbvsbnn73wcecg5vt3kbzncqwfrdiampuufwnhkublmaaa";

const FULL_TICKET: &str = "nodeacxfr74igmsbvsbnn73wcecg5vt3kbzncqwfrdiampuufwnhkublmaiqnb2hi4b2f4xwizlsoaxg2zjof4aqa7yaaaayaca";

fn bare_address() -> NodeAddr {
    NodeAddr::new(PublicKey::from_bytes(&NODE_ID).unwrap())
}

fn full_address() -> NodeAddr {
    NodeAddr::from_parts(
        PublicKey::from_bytes(&NODE_ID).unwrap(),
        Some("http://derp.me./".parse().unwrap()),
        ["127.0.0.1:1024".parse().unwrap()],
    )
}

#[test]
fn a_ticket_for_a_bare_address_has_its_exact_text() {
    assert_eq!(issue_ticket(bare_address()), BARE_TICKET);
}

#[test]
fn a_ticket_for_a_full_address_has_its_exact_text() {
    assert_eq!(issue_ticket(full_address()), FULL_TICKET);
}

#[test]
fn joining_reads_the_address_out_of_the_ticket() {
    assert_eq!(join(BARE_TICKET), Ok(bare_address()));
    assert_eq!(join(FULL_TICKET), Ok(full_address()));
    assert_ne!(join(FULL_TICKET), Ok(bare_address()));
}

#[test]
fn an_issued_ticket_joins_back_to_its_address() {
    for address in [bare_address(), full_address()] {
        assert_eq!(join(&issue_ticket(address.clone())), Ok(address));
    }
}

#[test]
fn a_malformed_ticket_is_rejected_without_a_panic() {
    assert_eq!(join("this is not a ticket"), Err(EstablishError::MalformedTicket));
}

#[test]
fn an_empty_ticket_is_malformed() {
    assert_eq!(join(""), Err(EstablishError::MalformedTicket));
}

#[test]
fn a_ticket_without_the_kind_word_is_malformed() {
    // The body alone, without the word in front.
    assert_eq!(join(&BARE_TICKET[4..]), Err(EstablishError::MalformedTicket));
    // Another word in front.
    let other = format!("blob{}", &BARE_TICKET[4..]);
    assert_eq!(join(&other), Err(EstablishError::MalformedTicket));
    // The word in capitals.
    let shouted = format!("NODE{}", &BARE_TICKET[4..]);
    assert_eq!(join(&shouted), Err(EstablishError::MalformedTicket));
}

#[test]
fn the_kind_word_alone_is_malformed() {
    assert_eq!(join("node"), Err(EstablishError::MalformedTicket));
}

#[test]
fn a_ticket_with_a_body_that_is_no_base32_is_malformed() {
    assert_eq!(join("node!!!!"), Err(EstablishError::MalformedTicket));
    assert_eq!(join("node0189"), Err(EstablishError::MalformedTicket));
}

#[test]
fn a_ticket_cut_short_is_malformed() {
    assert_eq!(join(&BARE_TICKET[..30]), Err(EstablishError::MalformedTicket));
}

#[test]
fn a_ticket_of_zero_bytes_is_read_or_refused_but_never_misread() {
    // 35 zero bytes decode from base32. Whether they make an address is for
    // the key check to say: either way nothing is made up.
    let body = "a".repeat(56);
    let ticket = format!("node{body}");
    let target = join(&ticket);
    match target {
        Ok(address) => assert_eq!(issue_ticket(address), ticket),
        Err(error) => assert_eq!(error, EstablishError::MalformedTicket),
    }
}

#[test]
fn each_failure_has_its_own_words() {
    assert_eq!(EstablishError::MalformedTicket.describe(), "the ticket could not be read");
    assert_eq!(EstablishError::PeerUnreachable.describe(), "the host could not be reached");
    assert_eq!(EstablishError::TagMismatch.describe(), "the host speaks another protocol");
}

#[test]
fn the_ticket_goes_by_the_address_and_by_nothing_else() {
    // The same address gives the same ticket, every time.
    assert_eq!(issue_ticket(full_address()), issue_ticket(full_address()));
    // Another address gives another ticket.
    assert_ne!(issue_ticket(bare_address()), issue_ticket(full_address()));
}
