use sfn_tpn::{Role, TurnEvent, TurnGate};

#[test]
fn initiator_moves_first_and_host_second() {
    assert!(Role::Initiator.moves_first());
    assert!(!Role::Host.moves_first());
}

#[test]
fn each_role_has_the_other_as_peer() {
    assert_eq!(Role::Initiator.peer(), Role::Host);
    assert_eq!(Role::Host.peer(), Role::Initiator);
    assert_eq!(Role::Host.peer().peer(), Role::Host);
}

#[test]
fn gate_opens_with_the_turn_for_the_initiator_only() {
    assert!(TurnGate::open(Role::Initiator).my_turn());
    assert!(!TurnGate::open(Role::Host).my_turn());
}

#[test]
fn gate_of_initiator_follows_parity_of_completed_turns() {
    let mut gate = TurnGate::open(Role::Initiator);
    let initial = true;
    for completed in 0..20u32 {
        assert_eq!(gate.my_turn(), initial ^ (completed % 2 == 1));
        if gate.my_turn() {
            gate.record(TurnEvent::Sent);
        } else {
            gate.record(TurnEvent::NotYet);
            assert_eq!(gate.my_turn(), initial ^ (completed % 2 == 1));
            gate.record(TurnEvent::Received);
        }
    }
    assert!(gate.my_turn());
}

#[test]
fn gate_of_host_follows_parity_of_completed_turns() {
    let mut gate = TurnGate::open(Role::Host);
    let initial = false;
    for completed in 0..21u32 {
        assert_eq!(gate.my_turn(), initial ^ (completed % 2 == 1));
        if gate.my_turn() {
            gate.record(TurnEvent::Sent);
        } else {
            gate.record(TurnEvent::Received);
        }
    }
    assert!(gate.my_turn());
}

#[test]
fn idle_polls_leave_the_gate_as_it_was() {
    let mut gate = TurnGate::open(Role::Host);
    for _ in 0..100 {
        gate.record(TurnEvent::NotYet);
        assert!(!gate.my_turn());
    }
    gate.record(TurnEvent::Received);
    assert!(gate.my_turn());
}

#[test]
fn a_send_hands_the_turn_over_until_a_receive() {
    let mut gate = TurnGate::open(Role::Initiator);
    gate.record(TurnEvent::Sent);
    assert!(!gate.my_turn());
    gate.record(TurnEvent::NotYet);
    gate.record(TurnEvent::NotYet);
    assert!(!gate.my_turn());
    gate.record(TurnEvent::Received);
    assert!(gate.my_turn());
}
