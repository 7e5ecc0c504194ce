//! The movement model, the hazard script, and whole server/client ticks.

use fighter_core::animation::State;
use fighter_core::geom::Rect;
use fighter_core::hazard::Hazard;
use fighter_core::input::{calc_vel, InputSnapshot};
use fighter_core::scheduler::{server_tick, world_in_bounds_check, ClientState, World};
use fighter_core::vecmath::PhysVec;

fn platform() -> Rect {
    Rect::new(40, 620, 1200, 40)
}

fn idle() -> InputSnapshot {
    InputSnapshot::idle()
}

fn right() -> InputSnapshot {
    InputSnapshot::new(false, false, false, true)
}

#[test]
fn resistance_pulls_an_uncontrolled_axis_one_unit_toward_zero() {
    let mut v = PhysVec::new(3000, -3000);
    calc_vel(&mut v, &idle());
    assert_eq!(v, PhysVec::new(2000, -2000));
    calc_vel(&mut v, &idle());
    assert_eq!(v, PhysVec::new(1000, -1000));
    calc_vel(&mut v, &idle());
    assert_eq!(v, PhysVec::new(0, 0));
    // at rest it stays at rest
    calc_vel(&mut v, &idle());
    assert_eq!(v, PhysVec::new(0, 0));
}

#[test]
fn resistance_never_overshoots_zero() {
    let mut v = PhysVec::new(500, -700);
    calc_vel(&mut v, &idle());
    assert_eq!(v, PhysVec::new(0, 0));
}

#[test]
fn held_input_ramps_to_the_speed_limit_and_holds() {
    let mut v = PhysVec::new(0, 0);
    for tick in 1..=8i64 {
        calc_vel(&mut v, &right());
        assert_eq!(v.x, (tick * 1000).min(5000));
        assert_eq!(v.y, 0);
    }
}

#[test]
fn hazard_falls_to_the_floor_line_and_respawns() {
    let mut h = Hazard::new();
    assert_eq!(h.sprite, Rect::new(590, 0, 100, 100));

    for _ in 0..85 {
        h.step();
    }
    assert_eq!(h.sprite.y(), 595);
    assert!(!h.fell);

    // the step that crosses the floor line returns it to its spawn
    h.step();
    assert_eq!(h.sprite, Rect::new(590, 0, 100, 100));
    assert!(!h.fell);
}

#[test]
fn landed_hazard_stops_falling_until_reset() {
    let mut h = Hazard::new();
    h.fell = true;
    let before = h.sprite;
    h.step();
    assert_eq!(h.sprite, before);
}

#[test]
fn server_scenario_hazard_respawns_during_play() {
    let mut w = World::new(platform());
    let spawn = w.hazard.sprite;
    let mut respawned = false;
    let mut last_y = w.hazard.sprite.y();
    for _ in 0..120 {
        assert!(world_in_bounds_check(&w));
        server_tick(&mut w, idle(), idle());
        let y = w.hazard.sprite.y();
        if y < last_y {
            // the fall crossed the floor line and the hazard respawned
            assert_eq!(w.hazard.sprite, spawn);
            assert!(!w.hazard.fell);
            respawned = true;
            break;
        }
        last_y = y;
    }
    assert!(respawned);
}

#[test]
fn server_tick_advances_animation_from_input() {
    let mut w = World::new(platform());
    let snap = server_tick(&mut w, idle(), right());
    assert_eq!(snap.p1_state, State::Idle);
    assert_eq!(snap.p1_frame, 1);
    assert_eq!(snap.p2_state, State::Walk);
    // entering a new state restarts its animation before advancing
    assert_eq!(snap.p2_frame, 1);

    let snap = server_tick(&mut w, idle(), right());
    assert_eq!(snap.p1_frame, 2);
    assert_eq!(snap.p2_frame, 2);
}

#[test]
fn server_scenario_held_right_ramps_velocity_until_clamped() {
    let mut w = World::new(platform());
    for tick in 1..=60i32 {
        assert!(world_in_bounds_check(&w));
        let snap = server_tick(&mut w, right(), right());
        // the second fighter crosses nothing on its way: exact ramp,
        // clamped at the speed limit from the fifth tick on
        assert_eq!(snap.p2_velocity.x, tick.min(5));
        assert_eq!(snap.p2_state, State::Walk);
    }
}

#[test]
fn client_tick_consumes_the_buffer_front_and_queues_receipts() {
    let mut c = ClientState::new();
    assert_eq!(c.buffer.len(), 6);
    let initial = c.buffer[0];

    let mut w = World::new(platform());
    let fresh = server_tick(&mut w, right(), idle());

    let applied = c.client_tick(Some(fresh));
    assert_eq!(applied, initial);
    assert_eq!(c.buffer.len(), 6);
    assert_eq!(*c.buffer.last().unwrap(), fresh);
    assert_eq!(c.fighter1.char_state.state, applied.p1_state);
    assert_eq!(c.fighter1.char_state.current_frame, applied.p1_frame);

    // six buffered ticks later the fresh snapshot becomes authoritative
    for _ in 0..5 {
        c.client_tick(None);
    }
    let applied = c.client_tick(None);
    assert_eq!(applied, fresh);
    assert_eq!(c.fighter1.char_state.state, fresh.p1_state);
    assert_eq!(c.fighter1.char_state.current_frame, fresh.p1_frame);
    assert_eq!(
        c.fighter1.char_state.particle.position.x,
        (fresh.p1_position.x as i64) * 1000
    );
    assert_eq!(c.buffer.len(), 0);
}
