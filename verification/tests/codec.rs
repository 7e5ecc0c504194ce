//! The wire schema: encoding and decoding datagrams.

use fighter_core::animation::State;
use fighter_core::geom::Point;
use fighter_core::input::InputSnapshot;
use fighter_core::transmit::{
    decode_input, encode_input, receive_game_state, send_game_state, GameState,
};

fn sample_state() -> GameState {
    GameState {
        p1_position: Point::new(-12, 34),
        p1_velocity: Point::new(5, -5),
        p1_state: State::Walk,
        p1_frame: 3,
        p2_position: Point::new(300, 0),
        p2_velocity: Point::new(0, 1),
        p2_state: State::Block,
        p2_frame: 0,
    }
}

#[test]
fn input_encodes_to_four_flag_bytes() {
    let s = InputSnapshot::new(true, false, false, true);
    assert_eq!(encode_input(&s), vec![1u8, 0, 0, 1]);
}

#[test]
fn input_round_trips_value_to_bytes_to_value() {
    for bits in 0u8..16 {
        let s = InputSnapshot::new(bits & 1 != 0, bits & 2 != 0, bits & 4 != 0, bits & 8 != 0);
        let bytes = encode_input(&s);
        assert_eq!(decode_input(&bytes), Some(s));
    }
}

#[test]
fn input_round_trips_bytes_to_value_to_bytes() {
    let bytes = vec![0u8, 1, 1, 0];
    let s = decode_input(&bytes).expect("well-formed input datagram");
    assert_eq!(encode_input(&s), bytes);
}

#[test]
fn malformed_input_datagrams_are_rejected() {
    assert_eq!(decode_input(&vec![1u8, 0, 0]), None);
    assert_eq!(decode_input(&vec![1u8, 0, 0, 0, 0]), None);
    assert_eq!(decode_input(&vec![1u8, 0, 2, 0]), None);
    assert_eq!(decode_input(&vec![]), None);
}

#[test]
fn snapshot_round_trips_value_to_bytes_to_value() {
    let g = sample_state();
    let bytes = send_game_state(&g);
    assert_eq!(bytes.len(), 48);
    assert_eq!(receive_game_state(&bytes), Some(g));
}

#[test]
fn snapshot_round_trips_bytes_to_value_to_bytes() {
    let bytes = send_game_state(&sample_state());
    let g = receive_game_state(&bytes).expect("well-formed snapshot datagram");
    assert_eq!(send_game_state(&g), bytes);
}

#[test]
fn snapshot_fields_are_little_endian_in_order() {
    let g = sample_state();
    let bytes = send_game_state(&g);
    // first field: p1 x position, -12 as two's-complement little endian
    assert_eq!(&bytes[0..4], &(-12i32).to_le_bytes());
    // fifth field: p1 state tag (Walk is tag one)
    assert_eq!(&bytes[16..20], &1i32.to_le_bytes());
    // sixth field: p1 frame index
    assert_eq!(&bytes[20..24], &3i32.to_le_bytes());
}

#[test]
fn snapshot_with_bad_state_tag_is_rejected() {
    let mut bytes = send_game_state(&sample_state());
    bytes[16] = 8;
    assert_eq!(receive_game_state(&bytes), None);
}

#[test]
fn snapshot_with_out_of_range_frame_is_rejected() {
    let mut bytes = send_game_state(&sample_state());
    // Walk has six frames; frame index six is out of range
    bytes[20] = 6;
    assert_eq!(receive_game_state(&bytes), None);
}

#[test]
fn snapshot_with_wrong_length_is_rejected() {
    let bytes = send_game_state(&sample_state());
    let short: Vec<u8> = bytes[0..47].to_vec();
    assert_eq!(receive_game_state(&short), None);
    let mut long = bytes.clone();
    long.push(0);
    assert_eq!(receive_game_state(&long), None);
}
