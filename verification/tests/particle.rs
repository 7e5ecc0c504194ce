//! Particle construction, force accumulation and integration.

#![allow(non_snake_case)]

use fighter_core::particle::Particle;
use fighter_core::vecmath::PhysVec;

#[test]
fn testInit() {
    let zero = PhysVec::new(0, 0);
    let p = Particle::new(zero, 1000, 5000);

    assert_eq!(p.position, zero);
    assert_eq!(p.acceleration, zero);
    assert_eq!(p.velocity, zero);
    assert_eq!(p.force_accumulator, zero);
    assert_eq!(p.damping, 1000);
    assert_eq!(p.inverse_mass, 200);
}

#[test]
fn testAddForce() {
    let zero = PhysVec::new(0, 0);
    let mut p = Particle::new(zero, 1000, 5000);
    let force1 = PhysVec::new(5000, 7000);
    let force2 = PhysVec::new(2000, 2000);
    p.add_force(&force1);

    assert_eq!(p.force_accumulator, force1);

    p.add_force(&force2);

    assert_eq!(p.force_accumulator, PhysVec::new(7000, 9000));
}

#[test]
fn testClearForce() {
    let zero = PhysVec::new(0, 0);
    let mut p = Particle::new(zero, 1000, 5000);
    let force1 = PhysVec::new(5000, 7000);
    let force2 = PhysVec::new(2000, 2000);
    p.add_force(&force1);
    p.add_force(&force2);
    p.clear_forces();

    assert_eq!(p.force_accumulator, zero);
}

#[test]
fn testIntegrate() {
    let zero = PhysVec::new(0, 0);
    let one = PhysVec::new(1000, 1000);
    let mut p = Particle::new(zero, 500, 2000);
    let force1 = PhysVec::new(5000, 7000);
    let force2 = PhysVec::new(2000, 2000);
    p.velocity.replace(&one);
    p.add_force(&force1);
    p.add_force(&force2);
    p.integrate(1);

    assert_eq!(p.position, one);
    assert_eq!(p.acceleration, PhysVec::new(3500, 4500));
    assert_eq!(p.velocity, PhysVec::new(2250, 2750));
    assert_eq!(p.force_accumulator, zero);
}

#[test]
fn integrate_zero_force_moves_by_velocity_and_damps() {
    let mut p = Particle::new(PhysVec::new(10_000, 20_000), 500, 1000);
    p.velocity.replace(&PhysVec::new(1000, -2000));
    p.integrate(1);

    assert_eq!(p.position, PhysVec::new(11_000, 18_000));
    assert_eq!(p.velocity, PhysVec::new(500, -1000));
}

#[test]
fn integrate_at_rest_changes_nothing() {
    let p0 = Particle::new(PhysVec::new(123_000, -45_000), 700, 3000);
    let mut p = p0;
    p.integrate(1);
    assert_eq!(p, p0);

    p.integrate(5);
    assert_eq!(p, p0);
}

#[test]
fn integrate_nonpositive_duration_is_a_no_op() {
    let mut p = Particle::new(PhysVec::new(1000, 2000), 500, 1000);
    p.velocity.replace(&PhysVec::new(9000, 9000));
    let before = p;
    p.integrate(0);
    assert_eq!(p, before);
    p.integrate(-3);
    assert_eq!(p, before);
}

#[test]
fn integrate_clamps_position_and_velocity() {
    let mut p = Particle::new(PhysVec::new(534_000, 0), 1000, 1000);
    p.velocity.replace(&PhysVec::new(5000, 0));
    p.integrate(1);
    // horizontal position clamps at the playfield edge
    assert_eq!(p.position.x, 535_000);

    let mut q = Particle::new(PhysVec::new(0, 0), 1000, 1);
    q.add_force_comps(0, 10_000_000);
    q.integrate(1);
    // vertical velocity clamps at its downward limit
    assert_eq!(q.velocity.y, 1_000_000);
}

#[test]
fn reset_y_restores_vertical_components() {
    let mut p = Particle::new(PhysVec::new(7000, 400_000), 500, 1000);
    p.velocity.replace(&PhysVec::new(1000, 2000));
    p.reset_y();
    assert_eq!(p.position, PhysVec::new(7000, 88_000));
    assert_eq!(p.velocity, PhysVec::new(1000, 0));
    assert_eq!(p.acceleration.y, 0);
    assert_eq!(p.force_accumulator.y, 0);
}

#[test]
fn raw_exposes_the_component_pair() {
    let v = PhysVec::new(12, -34);
    assert_eq!(v.raw(), (12, -34));
}

#[test]
fn to_point_truncates_toward_zero() {
    let mut p = Particle::new(PhysVec::new(1999, -1999), 1000, 1000);
    let pt = p.to_point();
    assert_eq!((pt.x, pt.y), (1, -1));
    p.position.replace(&PhysVec::new(-500, 500));
    let pt = p.to_point();
    assert_eq!((pt.x, pt.y), (0, 0));
}
