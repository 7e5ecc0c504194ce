//! The two-peer handshake and the per-tick input collection.

use fighter_core::input::InputSnapshot;
use fighter_core::session::{PeerAddr, SessionManager};
use fighter_core::transmit::{encode_input, receive_input, TickInputs};

fn addr(ip: u128, port: u16) -> PeerAddr {
    PeerAddr { ip, port }
}

#[test]
fn handshake_assigns_slots_in_arrival_order() {
    let a = addr(1, 4000);
    let b = addr(2, 4000);
    let c = addr(3, 4000);

    let mut m = SessionManager::new();
    assert!(!m.complete());
    assert_eq!(m.handle_datagram(a), Some(1));
    assert!(!m.complete());
    assert_eq!(m.handle_datagram(b), Some(2));
    assert!(m.complete());

    assert_eq!(m.slot_of(&a), Some(1));
    assert_eq!(m.slot_of(&b), Some(2));

    // a third address after both slots are taken gets nothing
    assert_eq!(m.handle_datagram(c), None);
    assert_eq!(m.slot_of(&c), None);
}

#[test]
fn handshake_order_decides_who_is_first() {
    let a = addr(1, 4000);
    let b = addr(2, 4000);

    let mut m = SessionManager::new();
    assert_eq!(m.handle_datagram(b), Some(1));
    assert_eq!(m.handle_datagram(a), Some(2));
    assert_eq!(m.slot_of(&b), Some(1));
    assert_eq!(m.slot_of(&a), Some(2));
}

#[test]
fn repeated_handshake_datagrams_are_ignored() {
    let a = addr(1, 4000);
    let b = addr(2, 5000);

    let mut m = SessionManager::new();
    assert_eq!(m.handle_datagram(a), Some(1));
    assert_eq!(m.handle_datagram(a), None);
    assert_eq!(m.handle_datagram(a), None);
    assert!(!m.complete());
    assert_eq!(m.handle_datagram(b), Some(2));
    assert_eq!(m.slot_of(&a), Some(1));
}

#[test]
fn same_ip_different_port_is_a_different_peer() {
    let a = addr(9, 4000);
    let b = addr(9, 4001);

    let mut m = SessionManager::new();
    assert_eq!(m.handle_datagram(a), Some(1));
    assert_eq!(m.handle_datagram(b), Some(2));
}

#[test]
fn tick_inputs_keep_the_first_sample_per_player() {
    let first = InputSnapshot::new(false, false, false, true);
    let second = InputSnapshot::new(true, false, false, false);

    let mut t = TickInputs::new();
    assert!(!t.ready());
    t.accept(1, first);
    t.accept(1, second);
    assert_eq!(t.input_1, first);
    assert!(!t.ready());
    t.accept(2, second);
    assert_eq!(t.input_2, second);
    assert!(t.ready());
}

#[test]
fn receive_input_routes_by_sender_address() {
    let a = addr(1, 4000);
    let b = addr(2, 4000);
    let stranger = addr(3, 4000);

    let mut m = SessionManager::new();
    m.handle_datagram(a);
    m.handle_datagram(b);

    let going_right = InputSnapshot::new(false, false, false, true);
    let going_left = InputSnapshot::new(false, false, true, false);

    let mut t = TickInputs::new();
    receive_input(&mut t, &m, b, &encode_input(&going_left));
    assert!(t.message_2 && !t.message_1);
    assert_eq!(t.input_2, going_left);

    // a malformed payload and an unknown sender both change nothing
    receive_input(&mut t, &m, a, &vec![9u8, 9, 9, 9]);
    assert!(!t.message_1);
    receive_input(&mut t, &m, stranger, &encode_input(&going_right));
    assert!(!t.message_1);

    receive_input(&mut t, &m, a, &encode_input(&going_right));
    assert!(t.ready());
    assert_eq!(t.input_1, going_right);
}
