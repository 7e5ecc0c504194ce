//! Animation state bookkeeping and sprite-sheet geometry.

use fighter_core::animation::{get_frame_cnt, get_rectangle, State};
use fighter_core::characters::{CharacterState, Fighter};
use fighter_core::geom::{Point, Rect};
use fighter_core::input::{calc_vel, InputSnapshot};
use fighter_core::vecmath::PhysVec;

#[test]
fn sheet_rectangle_is_offset_by_frame_index() {
    assert_eq!(get_rectangle(0), Rect::new(0, 0, 210, 300));
    assert_eq!(get_rectangle(2), Rect::new(420, 0, 210, 300));
}

#[test]
fn frame_counts_match_the_sprite_sheets() {
    let mut c = CharacterState::new();
    assert_eq!(get_frame_cnt(&c), 5);
    c.set_state(State::Walk);
    assert_eq!(get_frame_cnt(&c), 6);
    c.set_state(State::FJump);
    assert_eq!(get_frame_cnt(&c), 7);
    c.set_state(State::Block);
    assert_eq!(get_frame_cnt(&c), 1);
}

#[test]
fn advance_frame_wraps_at_the_state_frame_count() {
    let mut c = CharacterState::new();
    c.set_state(State::LPunch);
    assert_eq!(c.current_frame, 0);
    c.advance_frame();
    c.advance_frame();
    assert_eq!(c.current_frame, 2);
    c.advance_frame();
    assert_eq!(c.current_frame, 0);
}

#[test]
fn entering_a_new_state_restarts_its_animation() {
    let mut c = CharacterState::new();
    c.advance_frame();
    c.advance_frame();
    assert_eq!(c.current_frame, 2);
    // staying in the same state keeps the frame
    c.set_state(State::Idle);
    assert_eq!(c.current_frame, 2);
    // a different state restarts at the first frame
    c.set_state(State::Walk);
    assert_eq!(c.current_frame, 0);
}

#[test]
fn sprite_follows_the_particle_position() {
    let mut c = CharacterState::new();
    c.particle.position.replace(&PhysVec::new(100_000, -50_000));
    c.sync_sprite();
    assert_eq!(c.sprite, Rect::new(100 + 535, -50 + 210, 210, 300));
}

#[test]
fn rect_from_center_rounds_toward_the_top_left() {
    let r = Rect::from_center(Point::new(100, 100), 10, 5);
    assert_eq!(r, Rect::new(95, 98, 10, 5));
}

#[test]
fn a_new_fighter_is_python_at_the_origin() {
    let f = Fighter::new(CharacterState::new());
    assert_eq!(f.char_state.particle.position, PhysVec::new(0, 0));
    assert_eq!(f.char_state.state, State::Idle);
}

#[test]
fn opposing_directions_cancel_into_resistance() {
    // both horizontal directions pressed request no net change, so the
    // resistance rule applies instead of leaving the speed alone
    let mut v = PhysVec::new(2000, 0);
    let both = InputSnapshot::new(false, false, true, true);
    calc_vel(&mut v, &both);
    assert_eq!(v, PhysVec::new(1000, 0));
}
