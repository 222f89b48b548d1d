use sfn_tpn::interface::{settle_poll, settle_send};
use sfn_tpn::{
    Config, NetcodeInterface, Offer, Polled, RecvError, RelayAction, RelayEvent, RelayPhase, Role,
    SendError,
};
use tokio::sync::mpsc::error::TryRecvError;
use tokio::sync::oneshot;

fn with_ticket() -> Config {
    Config::Ticket("a ticket that nobody has read yet".to_string())
}

fn asking_for_ticket() -> Config {
    let (send, _recv) = oneshot::channel();
    Config::TicketSender(send)
}

#[test]
fn config_with_a_ticket_is_the_initiator() {
    assert_eq!(with_ticket().role(), Role::Initiator);
}

#[test]
fn config_asking_for_a_ticket_is_the_host() {
    assert_eq!(asking_for_ticket().role(), Role::Host);
}

#[test]
fn ticket_holder_starts_with_the_turn() {
    let (netcode, board) = NetcodeInterface::<4>::new(&with_ticket());
    assert!(netcode.my_turn());
    assert_eq!(board.phase(), RelayPhase::Idle);
}

#[test]
fn ticket_issuer_starts_without_the_turn() {
    let (netcode, board) = NetcodeInterface::<4>::new(&asking_for_ticket());
    assert!(!netcode.my_turn());
    assert_eq!(board.phase(), RelayPhase::Idle);
}

#[test]
fn polling_before_anything_arrives_says_not_yet_every_time() {
    let (mut netcode, _board) = NetcodeInterface::<4>::new(&asking_for_ticket());
    for _ in 0..25 {
        assert_eq!(netcode.try_recv_turn(), Err(RecvError::NotYet));
        assert!(!netcode.my_turn());
    }
}

#[test]
fn a_send_ends_the_turn() {
    let (mut netcode, _board) = NetcodeInterface::<4>::new(&with_ticket());
    assert_eq!(netcode.send_turn(&[1, 2, 3, 4]), Ok(()));
    assert!(!netcode.my_turn());
    assert_eq!(netcode.try_recv_turn(), Err(RecvError::NotYet));
    assert!(!netcode.my_turn());
}

#[test]
fn a_sent_turn_reaches_the_outbound_channel_unchanged() {
    let (mut netcode, mut board) = NetcodeInterface::<4>::new(&with_ticket());
    assert_eq!(board.outbound().try_recv(), Err(TryRecvError::Empty));
    assert_eq!(netcode.send_turn(b"ping"), Ok(()));
    assert_eq!(board.outbound().try_recv(), Ok(*b"ping"));
    assert_eq!(board.outbound().try_recv(), Err(TryRecvError::Empty));
}

#[test]
fn a_pushed_turn_reaches_the_caller_unchanged() {
    let (mut netcode, mut board) = NetcodeInterface::<4>::new(&asking_for_ticket());
    assert_eq!(board.step(RelayEvent::Established(Role::Host)), RelayAction::Read);
    assert_eq!(netcode.try_recv_turn(), Err(RecvError::NotYet));
    assert_eq!(board.step(RelayEvent::Read([9, 8, 7, 6])), RelayAction::TakeOutbound);
    assert_eq!(netcode.try_recv_turn(), Ok([9, 8, 7, 6]));
    assert!(netcode.my_turn());
}

#[test]
fn the_two_directions_do_not_cross() {
    let (mut netcode, mut board) = NetcodeInterface::<4>::new(&with_ticket());
    assert_eq!(netcode.send_turn(&[1, 1, 1, 1]), Ok(()));
    // What the caller sent is not what the caller receives.
    assert_eq!(netcode.try_recv_turn(), Err(RecvError::NotYet));
    assert_eq!(board.outbound().try_recv(), Ok([1, 1, 1, 1]));
}

#[test]
fn a_poll_after_the_relay_is_gone_says_session_ended() {
    let (mut netcode, board) = NetcodeInterface::<4>::new(&asking_for_ticket());
    drop(board);
    assert_eq!(netcode.try_recv_turn(), Err(RecvError::SessionEnded));
    assert!(!netcode.my_turn());
}

#[test]
fn a_turn_pushed_before_the_relay_went_is_still_received() {
    let (mut netcode, mut board) = NetcodeInterface::<4>::new(&asking_for_ticket());
    assert_eq!(board.step(RelayEvent::Established(Role::Host)), RelayAction::Read);
    assert_eq!(board.step(RelayEvent::Read([5, 6, 7, 8])), RelayAction::TakeOutbound);
    drop(board);
    assert_eq!(netcode.try_recv_turn(), Ok([5, 6, 7, 8]));
    assert!(netcode.my_turn());
}

#[test]
fn a_send_after_the_relay_is_gone_says_session_ended_and_keeps_the_turn() {
    let (mut netcode, board) = NetcodeInterface::<4>::new(&with_ticket());
    drop(board);
    assert_eq!(netcode.send_turn(&[1, 2, 3, 4]), Err(SendError::SessionEnded));
    assert!(netcode.my_turn());
}

#[test]
fn settling_a_send_goes_by_the_offer() {
    assert_eq!(settle_send(Offer::Accepted), Ok(()));
    assert_eq!(settle_send(Offer::Full), Err(SendError::Backlogged));
    assert_eq!(settle_send(Offer::Closed), Err(SendError::SessionEnded));
}

#[test]
fn settling_a_poll_goes_by_what_was_found() {
    assert_eq!(settle_poll(Polled::Message([0u8, 255, 7])), Ok([0u8, 255, 7]));
    assert_eq!(settle_poll(Polled::<3>::Empty), Err(RecvError::NotYet));
    assert_eq!(settle_poll(Polled::<3>::Disconnected), Err(RecvError::SessionEnded));
}

#[test]
fn turns_of_one_byte_pass() {
    let (mut netcode, mut board) = NetcodeInterface::<1>::new(&with_ticket());
    assert_eq!(netcode.send_turn(&[200]), Ok(()));
    assert_eq!(board.outbound().try_recv(), Ok([200]));
}

#[test]
fn turns_of_no_bytes_pass() {
    let (mut netcode, mut board) = NetcodeInterface::<0>::new(&with_ticket());
    assert_eq!(netcode.send_turn(&[]), Ok(()));
    assert!(!netcode.my_turn());
    assert_eq!(board.outbound().try_recv(), Ok([]));
}

#[test]
fn large_turns_pass_byte_for_byte() {
    let mut turn = [0u8; 1000];
    for (place, byte) in turn.iter_mut().enumerate() {
        *byte = (place * 7 % 256) as u8;
    }
    let (mut netcode, mut board) = NetcodeInterface::<1000>::new(&asking_for_ticket());
    assert_eq!(board.step(RelayEvent::Established(Role::Host)), RelayAction::Read);
    assert_eq!(board.step(RelayEvent::Read(turn)), RelayAction::TakeOutbound);
    assert_eq!(netcode.try_recv_turn(), Ok(turn));
    assert_eq!(netcode.send_turn(&turn), Ok(()));
    assert_eq!(board.outbound().try_recv(), Ok(turn));
}

#[test]
fn a_send_takes_nothing_from_the_inbound_channel() {
    let (mut netcode, mut board) = NetcodeInterface::<4>::new(&with_ticket());
    // A turn is waiting in the inbound channel while the caller sends.
    assert_eq!(board.step(RelayEvent::Established(Role::Host)), RelayAction::Read);
    assert_eq!(board.step(RelayEvent::Read([9, 9, 9, 9])), RelayAction::TakeOutbound);
    assert_eq!(netcode.send_turn(&[1, 2, 3, 4]), Ok(()));
    // It is still there afterwards, and what was sent went the other way.
    assert_eq!(netcode.try_recv_turn(), Ok([9, 9, 9, 9]));
    assert_eq!(board.outbound().try_recv(), Ok([1, 2, 3, 4]));
}

#[test]
fn a_poll_puts_nothing_into_the_outbound_channel() {
    let (mut netcode, mut board) = NetcodeInterface::<4>::new(&asking_for_ticket());
    assert_eq!(netcode.try_recv_turn(), Err(RecvError::NotYet));
    assert_eq!(board.outbound().try_recv(), Err(TryRecvError::Empty));
}
