//! The wire schema and the per-tick input collection.
//!
//! Both datagram kinds use an explicit fixed-width schema so that
//! compatibility between the peers is a property of the schema alone: an
//! input datagram is four flag bytes, a state snapshot is twelve signed
//! 32-bit fields in little-endian order (per fighter: position x and y,
//! velocity x and y, animation state tag, frame index).  Encoding and
//! decoding are exact inverses on valid values and valid byte strings.

use vstd::prelude::*;
use crate::animation::{frame_cnt_spec, State};
use crate::characters::Fighter;
use crate::fixed::{div_scale, scale_down, SIM_MAX};
use crate::geom::Point;
use crate::input::InputSnapshot;
use crate::particle::vec_mag_ok;
use crate::session::{spec_lookup, PeerAddr, SessionManager};

verus! {

/// Byte length of an input datagram.
pub const INPUT_LEN: usize = 4;

/// Byte length of a snapshot datagram.
pub const SNAPSHOT_LEN: usize = 48;

/// A flag byte: one for pressed, zero for released.
pub open spec fn flag_byte(b: bool) -> u8 {
    if b {
        1u8
    } else {
        0u8
    }
}

/// The wire bytes of an input snapshot.
pub open spec fn input_bytes(s: InputSnapshot) -> Seq<u8> {
    seq![flag_byte(s.up), flag_byte(s.down), flag_byte(s.left), flag_byte(s.right)]
}

/// A well-formed input datagram: four bytes, each zero or one.
pub open spec fn valid_input_bytes(b: Seq<u8>) -> bool {
    &&& b.len() == 4
    &&& forall|i: int| 0 <= i < 4 ==> (b[i] == 0u8 || b[i] == 1u8)
}

/// The input snapshot under a well-formed input datagram.
pub open spec fn parse_input(b: Seq<u8>) -> Option<InputSnapshot> {
    if valid_input_bytes(b) {
        Some(
            InputSnapshot {
                up: b[0] == 1u8,
                down: b[1] == 1u8,
                left: b[2] == 1u8,
                right: b[3] == 1u8,
            },
        )
    } else {
        None
    }
}

/// Serializes one input snapshot for its tick's datagram.
pub fn encode_input(s: &InputSnapshot) -> (r: Vec<u8>)
    ensures
        r@ == input_bytes(*s),
        valid_input_bytes(r@),
        r@.len() == INPUT_LEN,
{
    let mut out: Vec<u8> = Vec::new();
    out.push(if s.up { 1 } else { 0 });
    out.push(if s.down { 1 } else { 0 });
    out.push(if s.left { 1 } else { 0 });
    out.push(if s.right { 1 } else { 0 });
    proof {
        assert(out@ =~= input_bytes(*s));
    }
    out
}

/// Deserializes an input datagram; a malformed one yields nothing.
pub fn decode_input(b: &Vec<u8>) -> (r: Option<InputSnapshot>)
    ensures
        r == parse_input(b@),
        r is Some <==> valid_input_bytes(b@),
{
    if b.len() != INPUT_LEN {
        return None;
    }
    let b0 = b[0];
    let b1 = b[1];
    let b2 = b[2];
    let b3 = b[3];
    if (b0 > 1) || (b1 > 1) || (b2 > 1) || (b3 > 1) {
        return None;
    }
    Some(InputSnapshot { up: b0 == 1, down: b1 == 1, left: b2 == 1, right: b3 == 1 })
}

/// Law: decoding what was encoded returns the same snapshot.
pub proof fn lemma_input_round_trip(s: InputSnapshot)
    ensures
        parse_input(input_bytes(s)) == Some(s),
{
}

/// Law: encoding what a well-formed datagram decoded to returns the same
/// bytes.
pub proof fn lemma_input_bytes_round_trip(b: Seq<u8>)
    requires
        valid_input_bytes(b),
    ensures
        parse_input(b) is Some,
        input_bytes(parse_input(b).unwrap()) == b,
{
    assert(input_bytes(parse_input(b).unwrap()) =~= b);
}

/// The low byte of each of the four byte positions of `v`.
pub open spec fn byte_at(v: u32, k: int) -> u8 {
    if k == 0 {
        (v & 0xff) as u8
    } else if k == 1 {
        ((v >> 8) & 0xff) as u8
    } else if k == 2 {
        ((v >> 16) & 0xff) as u8
    } else {
        ((v >> 24) & 0xff) as u8
    }
}

/// The four little-endian bytes of `v`.
pub open spec fn dword(v: u32) -> Seq<u8> {
    seq![byte_at(v, 0), byte_at(v, 1), byte_at(v, 2), byte_at(v, 3)]
}

/// The 32-bit value under four little-endian bytes.
pub open spec fn u32_le(b0: u8, b1: u8, b2: u8, b3: u8) -> u32 {
    (b0 as u32) | ((b1 as u32) << 8) | ((b2 as u32) << 16) | ((b3 as u32) << 24)
}

/// The `k`th 32-bit field of a snapshot datagram.
pub open spec fn u32_at(b: Seq<u8>, k: int) -> u32 {
    u32_le(b[4 * k], b[4 * k + 1], b[4 * k + 2], b[4 * k + 3])
}

pub proof fn lemma_pack_unpack(v: u32)
    ensures
        u32_le(byte_at(v, 0), byte_at(v, 1), byte_at(v, 2), byte_at(v, 3)) == v,
{
    assert((((v & 0xff) as u8) as u32) | ((((v >> 8) & 0xff) as u8) as u32) << 8 | ((((v >> 16)
        & 0xff) as u8) as u32) << 16 | ((((v >> 24) & 0xff) as u8) as u32) << 24 == v)
        by (bit_vector);
}

pub proof fn lemma_unpack_pack(b0: u8, b1: u8, b2: u8, b3: u8)
    ensures
        byte_at(u32_le(b0, b1, b2, b3), 0) == b0,
        byte_at(u32_le(b0, b1, b2, b3), 1) == b1,
        byte_at(u32_le(b0, b1, b2, b3), 2) == b2,
        byte_at(u32_le(b0, b1, b2, b3), 3) == b3,
{
    assert((((b0 as u32) | ((b1 as u32) << 8) | ((b2 as u32) << 16) | ((b3 as u32) << 24))
        & 0xff) as u8 == b0) by (bit_vector);
    assert(((((b0 as u32) | ((b1 as u32) << 8) | ((b2 as u32) << 16) | ((b3 as u32) << 24)) >> 8)
        & 0xff) as u8 == b1) by (bit_vector);
    assert(((((b0 as u32) | ((b1 as u32) << 8) | ((b2 as u32) << 16) | ((b3 as u32) << 24)) >> 16)
        & 0xff) as u8 == b2) by (bit_vector);
    assert(((((b0 as u32) | ((b1 as u32) << 8) | ((b2 as u32) << 16) | ((b3 as u32) << 24)) >> 24)
        & 0xff) as u8 == b3) by (bit_vector);
}

pub proof fn lemma_i32_cast_round_trip(x: i32)
    ensures
        ((x as u32) as i32) == x,
{
    assert(((x as u32) as i32) == x) by (bit_vector);
}

/// The numeric tag of an animation state on the wire.
pub open spec fn state_tag(s: State) -> u32 {
    match s {
        State::Idle => 0,
        State::Walk => 1,
        State::Jump => 2,
        State::FJump => 3,
        State::LPunch => 4,
        State::LKick => 5,
        State::HKick => 6,
        State::Block => 7,
    }
}

/// The animation state under a wire tag below eight.
pub open spec fn state_of_tag(t: u32) -> State {
    if t == 0 {
        State::Idle
    } else if t == 1 {
        State::Walk
    } else if t == 2 {
        State::Jump
    } else if t == 3 {
        State::FJump
    } else if t == 4 {
        State::LPunch
    } else if t == 5 {
        State::LKick
    } else if t == 6 {
        State::HKick
    } else {
        State::Block
    }
}

fn state_tag_exec(s: State) -> (r: u32)
    ensures
        r == state_tag(s),
{
    match s {
        State::Idle => 0,
        State::Walk => 1,
        State::Jump => 2,
        State::FJump => 3,
        State::LPunch => 4,
        State::LKick => 5,
        State::HKick => 6,
        State::Block => 7,
    }
}

fn state_of_tag_exec(t: u32) -> (r: State)
    requires
        t < 8,
    ensures
        r == state_of_tag(t),
{
    if t == 0 {
        State::Idle
    } else if t == 1 {
        State::Walk
    } else if t == 2 {
        State::Jump
    } else if t == 3 {
        State::FJump
    } else if t == 4 {
        State::LPunch
    } else if t == 5 {
        State::LKick
    } else if t == 6 {
        State::HKick
    } else {
        State::Block
    }
}

/// The authoritative per-tick state of both fighters, as sent from the
/// server to every client.
#[derive(Clone, Copy, Debug, PartialEq, Eq, Structural)]
pub struct GameState {
    pub p1_position: Point,
    pub p1_velocity: Point,
    pub p1_state: State,
    pub p1_frame: i32,
    pub p2_position: Point,
    pub p2_velocity: Point,
    pub p2_state: State,
    pub p2_frame: i32,
}

/// A snapshot whose frame indices point at existing frames of their
/// states; only such snapshots appear on the wire.
pub open spec fn valid_game_state(g: GameState) -> bool {
    &&& 0 <= g.p1_frame < frame_cnt_spec(g.p1_state)
    &&& 0 <= g.p2_frame < frame_cnt_spec(g.p2_state)
}

/// The wire bytes of a snapshot: twelve little-endian 32-bit fields.
pub open spec fn game_state_bytes(g: GameState) -> Seq<u8> {
    dword(g.p1_position.x as u32) + dword(g.p1_position.y as u32) + dword(g.p1_velocity.x as u32)
        + dword(g.p1_velocity.y as u32) + dword(state_tag(g.p1_state)) + dword(g.p1_frame as u32)
        + dword(g.p2_position.x as u32) + dword(g.p2_position.y as u32) + dword(
        g.p2_velocity.x as u32,
    ) + dword(g.p2_velocity.y as u32) + dword(state_tag(g.p2_state)) + dword(g.p2_frame as u32)
}

/// A well-formed snapshot datagram: forty-eight bytes whose state fields
/// are tags below eight and whose frame fields index existing frames.
pub open spec fn valid_game_bytes(b: Seq<u8>) -> bool {
    &&& b.len() == 48
    &&& u32_at(b, 4) < 8
    &&& u32_at(b, 10) < 8
    &&& 0 <= (u32_at(b, 5) as i32) < frame_cnt_spec(state_of_tag(u32_at(b, 4)))
    &&& 0 <= (u32_at(b, 11) as i32) < frame_cnt_spec(state_of_tag(u32_at(b, 10)))
}

/// The snapshot under a well-formed snapshot datagram.
pub open spec fn parse_game_state(b: Seq<u8>) -> Option<GameState> {
    if valid_game_bytes(b) {
        Some(
            GameState {
                p1_position: Point { x: u32_at(b, 0) as i32, y: u32_at(b, 1) as i32 },
                p1_velocity: Point { x: u32_at(b, 2) as i32, y: u32_at(b, 3) as i32 },
                p1_state: state_of_tag(u32_at(b, 4)),
                p1_frame: u32_at(b, 5) as i32,
                p2_position: Point { x: u32_at(b, 6) as i32, y: u32_at(b, 7) as i32 },
                p2_velocity: Point { x: u32_at(b, 8) as i32, y: u32_at(b, 9) as i32 },
                p2_state: state_of_tag(u32_at(b, 10)),
                p2_frame: u32_at(b, 11) as i32,
            },
        )
    } else {
        None
    }
}

/// Appends the four little-endian bytes of `v`.
fn push_u32_le(out: &mut Vec<u8>, v: u32)
    ensures
        final(out)@ == old(out)@ + dword(v),
{
    proof {
        assert(v & 0xff < 256 && (v >> 8) & 0xff < 256 && (v >> 16) & 0xff < 256 && (v >> 24)
            & 0xff < 256) by (bit_vector);
    }
    out.push((v & 0xff) as u8);
    out.push(((v >> 8) & 0xff) as u8);
    out.push(((v >> 16) & 0xff) as u8);
    out.push(((v >> 24) & 0xff) as u8);
    proof {
        assert(out@ =~= old(out)@ + dword(v));
    }
}

/// Reads the `k`th little-endian 32-bit field.
fn read_u32_le(b: &Vec<u8>, k: usize) -> (r: u32)
    requires
        4 * k + 4 <= b@.len(),
        b@.len() < 10000,
    ensures
        r == u32_at(b@, k as int),
{
    let off: usize = 4 * k;
    let b0 = b[off];
    let b1 = b[off + 1];
    let b2 = b[off + 2];
    let b3 = b[off + 3];
    (b0 as u32) | ((b1 as u32) << 8) | ((b2 as u32) << 16) | ((b3 as u32) << 24)
}

impl GameState {
    /// The snapshot of both fighters' current position, velocity,
    /// animation state and frame, in whole world units.
    pub fn new(f1: &Fighter, f2: &Fighter) -> (r: GameState)
        requires
            vec_mag_ok(f1.char_state.particle.position),
            vec_mag_ok(f1.char_state.particle.velocity),
            vec_mag_ok(f2.char_state.particle.position),
            vec_mag_ok(f2.char_state.particle.velocity),
        ensures
            r.p1_position.x == scale_down(f1.char_state.particle.position.x as int),
            r.p1_position.y == scale_down(f1.char_state.particle.position.y as int),
            r.p1_velocity.x == scale_down(f1.char_state.particle.velocity.x as int),
            r.p1_velocity.y == scale_down(f1.char_state.particle.velocity.y as int),
            r.p1_state == f1.char_state.state,
            r.p1_frame == f1.char_state.current_frame,
            r.p2_position.x == scale_down(f2.char_state.particle.position.x as int),
            r.p2_position.y == scale_down(f2.char_state.particle.position.y as int),
            r.p2_velocity.x == scale_down(f2.char_state.particle.velocity.x as int),
            r.p2_velocity.y == scale_down(f2.char_state.particle.velocity.y as int),
            r.p2_state == f2.char_state.state,
            r.p2_frame == f2.char_state.current_frame,
    {
        let p1 = f1.char_state.particle.to_point();
        let p2 = f2.char_state.particle.to_point();
        proof {
            lemma_scaled_fits(f1.char_state.particle.velocity.x as int);
            lemma_scaled_fits(f1.char_state.particle.velocity.y as int);
            lemma_scaled_fits(f2.char_state.particle.velocity.x as int);
            lemma_scaled_fits(f2.char_state.particle.velocity.y as int);
        }
        let v1x = div_scale(f1.char_state.particle.velocity.x);
        let v1y = div_scale(f1.char_state.particle.velocity.y);
        let v2x = div_scale(f2.char_state.particle.velocity.x);
        let v2y = div_scale(f2.char_state.particle.velocity.y);
        GameState {
            p1_position: p1,
            p1_velocity: Point::new(v1x as i32, v1y as i32),
            p1_state: f1.char_state.state,
            p1_frame: f1.char_state.current_frame,
            p2_position: p2,
            p2_velocity: Point::new(v2x as i32, v2y as i32),
            p2_state: f2.char_state.state,
            p2_frame: f2.char_state.current_frame,
        }
    }
}

/// The fixed-point quantity bound shrinks to a 32-bit value when divided
/// into whole units.
proof fn lemma_scaled_fits(v: int)
    requires
        -SIM_MAX <= v <= SIM_MAX,
    ensures
        -1_000_000_000 <= scale_down(v) <= 1_000_000_000,
{
    if v >= 0 {
        vstd::arithmetic::div_mod::lemma_div_is_ordered(v, SIM_MAX as int, 1000);
        vstd::arithmetic::div_mod::lemma_div_pos_is_pos(v, 1000);
    } else {
        vstd::arithmetic::div_mod::lemma_div_is_ordered(-v, SIM_MAX as int, 1000);
        vstd::arithmetic::div_mod::lemma_div_pos_is_pos(-v, 1000);
    }
}

/// Serializes a snapshot to its fixed-size datagram.
pub fn send_game_state(g: &GameState) -> (r: Vec<u8>)
    ensures
        r@ == game_state_bytes(*g),
        r@.len() == SNAPSHOT_LEN,
{
    let mut out: Vec<u8> = Vec::new();
    push_u32_le(&mut out, g.p1_position.x as u32);
    push_u32_le(&mut out, g.p1_position.y as u32);
    push_u32_le(&mut out, g.p1_velocity.x as u32);
    push_u32_le(&mut out, g.p1_velocity.y as u32);
    push_u32_le(&mut out, state_tag_exec(g.p1_state));
    push_u32_le(&mut out, g.p1_frame as u32);
    push_u32_le(&mut out, g.p2_position.x as u32);
    push_u32_le(&mut out, g.p2_position.y as u32);
    push_u32_le(&mut out, g.p2_velocity.x as u32);
    push_u32_le(&mut out, g.p2_velocity.y as u32);
    push_u32_le(&mut out, state_tag_exec(g.p2_state));
    push_u32_le(&mut out, g.p2_frame as u32);
    proof {
        assert(out@ =~= game_state_bytes(*g));
    }
    out
}

/// Deserializes a snapshot datagram; a malformed one yields nothing.
pub fn receive_game_state(b: &Vec<u8>) -> (r: Option<GameState>)
    ensures
        r == parse_game_state(b@),
        r is Some <==> valid_game_bytes(b@),
{
    if b.len() != SNAPSHOT_LEN {
        return None;
    }
    let t1 = read_u32_le(b, 4);
    let t2 = read_u32_le(b, 10);
    if t1 >= 8 || t2 >= 8 {
        return None;
    }
    let s1 = state_of_tag_exec(t1);
    let s2 = state_of_tag_exec(t2);
    let f1 = read_u32_le(b, 5) as i32;
    let f2 = read_u32_le(b, 11) as i32;
    let c1 = crate::animation::frame_cnt_of(s1);
    let c2 = crate::animation::frame_cnt_of(s2);
    if f1 < 0 || f1 >= c1 || f2 < 0 || f2 >= c2 {
        return None;
    }
    Some(
        GameState {
            p1_position: Point::new(read_u32_le(b, 0) as i32, read_u32_le(b, 1) as i32),
            p1_velocity: Point::new(read_u32_le(b, 2) as i32, read_u32_le(b, 3) as i32),
            p1_state: s1,
            p1_frame: f1,
            p2_position: Point::new(read_u32_le(b, 6) as i32, read_u32_le(b, 7) as i32),
            p2_velocity: Point::new(read_u32_le(b, 8) as i32, read_u32_le(b, 9) as i32),
            p2_state: s2,
            p2_frame: f2,
        },
    )
}

/// Law: decoding what was encoded returns the same snapshot, for every
/// snapshot that can appear on the wire.
pub proof fn lemma_game_state_round_trip(g: GameState)
    requires
        valid_game_state(g),
    ensures
        parse_game_state(game_state_bytes(g)) == Some(g),
{
    let b = game_state_bytes(g);
    lemma_game_fields(g);
    lemma_i32_cast_round_trip(g.p1_position.x);
    lemma_i32_cast_round_trip(g.p1_position.y);
    lemma_i32_cast_round_trip(g.p1_velocity.x);
    lemma_i32_cast_round_trip(g.p1_velocity.y);
    lemma_i32_cast_round_trip(g.p1_frame);
    lemma_i32_cast_round_trip(g.p2_position.x);
    lemma_i32_cast_round_trip(g.p2_position.y);
    lemma_i32_cast_round_trip(g.p2_velocity.x);
    lemma_i32_cast_round_trip(g.p2_velocity.y);
    lemma_i32_cast_round_trip(g.p2_frame);
}

/// Each 32-bit field of an encoded snapshot reads back as the field that
/// was written.
proof fn lemma_game_fields(g: GameState)
    ensures
        game_state_bytes(g).len() == 48,
        forall|k: int, j: int|
            0 <= k < 12 && 0 <= j < 4 ==> game_state_bytes(g)[4 * k + j] == byte_at(
                u32_at(game_state_bytes(g), k),
                j,
            ),
        u32_at(game_state_bytes(g), 0) == g.p1_position.x as u32,
        u32_at(game_state_bytes(g), 1) == g.p1_position.y as u32,
        u32_at(game_state_bytes(g), 2) == g.p1_velocity.x as u32,
        u32_at(game_state_bytes(g), 3) == g.p1_velocity.y as u32,
        u32_at(game_state_bytes(g), 4) == state_tag(g.p1_state),
        u32_at(game_state_bytes(g), 5) == g.p1_frame as u32,
        u32_at(game_state_bytes(g), 6) == g.p2_position.x as u32,
        u32_at(game_state_bytes(g), 7) == g.p2_position.y as u32,
        u32_at(game_state_bytes(g), 8) == g.p2_velocity.x as u32,
        u32_at(game_state_bytes(g), 9) == g.p2_velocity.y as u32,
        u32_at(game_state_bytes(g), 10) == state_tag(g.p2_state),
        u32_at(game_state_bytes(g), 11) == g.p2_frame as u32,
{
    let ws = seq![
        g.p1_position.x as u32,
        g.p1_position.y as u32,
        g.p1_velocity.x as u32,
        g.p1_velocity.y as u32,
        state_tag(g.p1_state),
        g.p1_frame as u32,
        g.p2_position.x as u32,
        g.p2_position.y as u32,
        g.p2_velocity.x as u32,
        g.p2_velocity.y as u32,
        state_tag(g.p2_state),
        g.p2_frame as u32,
    ];
    let b = game_state_bytes(g);
    assert forall|k: int, j: int| 0 <= k < 12 && 0 <= j < 4 implies b[4 * k + j] == byte_at(
        ws[k],
        j,
    ) by {
        assert(b[4 * k + j] == byte_at(ws[k], j));
    }
    assert forall|k: int| 0 <= k < 12 implies u32_at(b, k) == ws[k] by {
        assert(b[4 * k] == byte_at(ws[k], 0));
        assert(b[4 * k + 1] == byte_at(ws[k], 1));
        assert(b[4 * k + 2] == byte_at(ws[k], 2));
        assert(b[4 * k + 3] == byte_at(ws[k], 3));
        lemma_pack_unpack(ws[k]);
    }
    assert forall|k: int, j: int| 0 <= k < 12 && 0 <= j < 4 implies b[4 * k + j] == byte_at(
        u32_at(b, k),
        j,
    ) by {
        assert(b[4 * k + j] == byte_at(ws[k], j));
        assert(u32_at(b, k) == ws[k]);
    }
}

/// Law: encoding what a well-formed datagram decoded to returns the same
/// bytes.
pub proof fn lemma_game_bytes_round_trip(b: Seq<u8>)
    requires
        valid_game_bytes(b),
    ensures
        parse_game_state(b) is Some,
        game_state_bytes(parse_game_state(b).unwrap()) == b,
{
    let g = parse_game_state(b).unwrap();
    lemma_game_fields(g);
    let t1 = u32_at(b, 4);
    let t2 = u32_at(b, 10);
    assert(t1 < 8 && t2 < 8);
    assert(state_tag(state_of_tag(t1)) == t1);
    assert(state_tag(state_of_tag(t2)) == t2);
    lemma_u32_cast_round_trip(u32_at(b, 0));
    lemma_u32_cast_round_trip(u32_at(b, 1));
    lemma_u32_cast_round_trip(u32_at(b, 2));
    lemma_u32_cast_round_trip(u32_at(b, 3));
    lemma_u32_cast_round_trip(u32_at(b, 5));
    lemma_u32_cast_round_trip(u32_at(b, 6));
    lemma_u32_cast_round_trip(u32_at(b, 7));
    lemma_u32_cast_round_trip(u32_at(b, 8));
    lemma_u32_cast_round_trip(u32_at(b, 9));
    lemma_u32_cast_round_trip(u32_at(b, 11));
    assert forall|k: int| 0 <= k < 12 implies u32_at(game_state_bytes(g), k) == u32_at(b, k) by {}
    assert forall|i: int| 0 <= i < 48 implies game_state_bytes(g)[i] == b[i] by {
        let k = i / 4;
        let j = i % 4;
        vstd::arithmetic::div_mod::lemma_fundamental_div_mod(i, 4);
        vstd::arithmetic::div_mod::lemma_div_is_ordered(i, 47, 4);
        vstd::arithmetic::div_mod::lemma_div_pos_is_pos(i, 4);
        assert(0 <= k < 12 && 0 <= j < 4);
        assert(u32_at(game_state_bytes(g), k) == u32_at(b, k));
        assert(game_state_bytes(g)[4 * k + j] == byte_at(u32_at(game_state_bytes(g), k), j));
        lemma_unpack_pack(b[4 * k], b[4 * k + 1], b[4 * k + 2], b[4 * k + 3]);
        assert(byte_at(u32_at(b, k), j) == b[4 * k + j]);
    }
    assert(game_state_bytes(g) =~= b);
}

pub proof fn lemma_u32_cast_round_trip(v: u32)
    ensures
        ((v as i32) as u32) == v,
{
    assert(((v as i32) as u32) == v) by (bit_vector);
}

/// Collects both players' input for one tick with exactly-once
/// semantics: the first datagram of each player this tick is kept, any
/// further one is dropped.
#[derive(Clone, Copy, Debug, PartialEq, Eq, Structural)]
pub struct TickInputs {
    pub input_1: InputSnapshot,
    pub input_2: InputSnapshot,
    pub message_1: bool,
    pub message_2: bool,
}

/// The collection state after one accepted or dropped sample.
pub open spec fn spec_accept(t: TickInputs, slot: u8, snap: InputSnapshot) -> TickInputs {
    if slot == 1 && !t.message_1 {
        TickInputs { input_1: snap, message_1: true, ..t }
    } else if slot == 2 && !t.message_2 {
        TickInputs { input_2: snap, message_2: true, ..t }
    } else {
        t
    }
}

impl TickInputs {
    /// A fresh tick: nothing received yet.
    pub fn new() -> (r: TickInputs)
        ensures
            r.input_1 == (InputSnapshot { up: false, down: false, left: false, right: false }),
            r.input_2 == (InputSnapshot { up: false, down: false, left: false, right: false }),
            r.message_1 == false,
            r.message_2 == false,
    {
        TickInputs {
            input_1: InputSnapshot::idle(),
            input_2: InputSnapshot::idle(),
            message_1: false,
            message_2: false,
        }
    }

    /// Records one player's sample the first time it arrives this tick;
    /// a duplicate from the same player this tick is dropped.
    pub fn accept(&mut self, slot: u8, snap: InputSnapshot)
        ensures
            *final(self) == spec_accept(*old(self), slot, snap),
    {
        if slot == 1 && !self.message_1 {
            self.input_1 = snap;
            self.message_1 = true;
        } else if slot == 2 && !self.message_2 {
            self.input_2 = snap;
            self.message_2 = true;
        }
    }

    /// Whether both players have contributed this tick.
    pub fn ready(&self) -> (r: bool)
        ensures
            r == (self.message_1 && self.message_2),
    {
        self.message_1 && self.message_2
    }
}

/// Routes one received datagram into the tick's collection: the payload
/// is decoded, the sender's address is mapped to its slot, and the sample
/// is recorded first-wins.  A malformed payload or an unknown sender
/// changes nothing.
pub fn receive_input(
    inputs: &mut TickInputs,
    sessions: &SessionManager,
    from: PeerAddr,
    payload: &Vec<u8>,
)
    ensures
        *final(inputs) == (match (parse_input(payload@), spec_lookup(sessions@, from)) {
            (Some(snap), Some(slot)) => spec_accept(*old(inputs), slot, snap),
            _ => *old(inputs),
        }),
{
    let snap = match decode_input(payload) {
        Some(s) => s,
        None => {
            return;
        },
    };
    let slot = match sessions.slot_of(&from) {
        Some(k) => k,
        None => {
            return;
        },
    };
    inputs.accept(slot, snap);
}

/// Law: of two samples from the same player in one tick, the first is
/// kept and the second is dropped.
pub proof fn lemma_exactly_once_per_tick(t: TickInputs, slot: u8, s1: InputSnapshot, s2: InputSnapshot)
    ensures
        spec_accept(spec_accept(t, slot, s1), slot, s2) == spec_accept(t, slot, s1),
{
}

} // verus!
