//! Discrete directional input and the velocity/resistance model.
//!
//! Each tick a pressed direction adds one acceleration unit to the
//! matching velocity axis; an axis with no requested change is instead
//! pulled one unit toward zero (never past it), and the result is clamped
//! to the speed limit.

use vstd::prelude::*;
use crate::characters::Fighter;
use crate::fixed::{clamp_i64, clamp_spec, SIM_MAX};
use crate::particle::{integrate_spec, particle_wf, vec_mag_ok, Particle};
use crate::vecmath::PhysVec;

verus! {

/// Speed limit per axis, in fixed-point units per tick.
pub const SPEED_LIMIT: i64 = 5 * 1000;

/// Acceleration per pressed direction, in fixed-point units per tick;
/// also the size of one resistance step.
pub const ACCEL_RATE: i64 = 1000;

/// One player's control state for one tick.
#[derive(Clone, Copy, Debug, PartialEq, Eq, Structural)]
pub struct InputSnapshot {
    pub up: bool,
    pub down: bool,
    pub left: bool,
    pub right: bool,
}

impl InputSnapshot {
    pub fn new(up: bool, down: bool, left: bool, right: bool) -> (r: InputSnapshot)
        ensures
            r == (InputSnapshot { up, down, left, right }),
    {
        InputSnapshot { up, down, left, right }
    }

    /// The snapshot with nothing pressed.
    pub fn idle() -> (r: InputSnapshot)
        ensures
            r == (InputSnapshot { up: false, down: false, left: false, right: false }),
    {
        InputSnapshot { up: false, down: false, left: false, right: false }
    }
}

/// The requested velocity change of one axis: one acceleration unit per
/// pressed direction, signed.
pub open spec fn axis_delta(neg: bool, pos: bool) -> int {
    (if neg { -1000int } else { 0int }) + (if pos { 1000int } else { 0int })
}

/// The resistance rule of one axis: a requested change passes through
/// unchanged; with none requested, a moving axis is pulled one unit
/// toward zero, never past it.
pub open spec fn resist_spec(vel: int, deltav: int) -> int {
    if deltav != 0 {
        deltav
    } else if vel > 0 {
        if vel < 1000 {
            -vel
        } else {
            -1000int
        }
    } else if vel < 0 {
        if -vel < 1000 {
            -vel
        } else {
            1000int
        }
    } else {
        0int
    }
}

pub fn resist(vel: i64, deltav: i64) -> (r: i64)
    requires
        -SIM_MAX <= vel <= SIM_MAX,
    ensures
        r == resist_spec(vel as int, deltav as int),
{
    if deltav != 0 {
        deltav
    } else if vel > 0 {
        if vel < 1000 {
            -vel
        } else {
            -1000
        }
    } else if vel < 0 {
        if -vel < 1000 {
            -vel
        } else {
            1000
        }
    } else {
        0
    }
}

/// One axis of the velocity model: resistance, then accumulation, then
/// the speed clamp.
pub open spec fn axis_step(vel: int, neg: bool, pos: bool) -> int {
    clamp_spec(
        vel + resist_spec(vel, axis_delta(neg, pos)),
        -SPEED_LIMIT as int,
        SPEED_LIMIT as int,
    )
}

/// The velocity after one tick of the given input.
pub open spec fn calc_vel_spec(vel: PhysVec, input: InputSnapshot) -> PhysVec {
    PhysVec {
        x: axis_step(vel.x as int, input.left, input.right) as i64,
        y: axis_step(vel.y as int, input.up, input.down) as i64,
    }
}

/// Applies one tick of the velocity/resistance model to `vel`.
pub fn calc_vel(vel: &mut PhysVec, input: &InputSnapshot)
    requires
        -SIM_MAX <= old(vel).x <= SIM_MAX,
        -SIM_MAX <= old(vel).y <= SIM_MAX,
    ensures
        *final(vel) == calc_vel_spec(*old(vel), *input),
        -SPEED_LIMIT <= final(vel).x <= SPEED_LIMIT,
        -SPEED_LIMIT <= final(vel).y <= SPEED_LIMIT,
{
    let mut x_deltav: i64 = 0;
    let mut y_deltav: i64 = 0;
    if input.up {
        y_deltav = y_deltav - ACCEL_RATE;
    }
    if input.left {
        x_deltav = x_deltav - ACCEL_RATE;
    }
    if input.down {
        y_deltav = y_deltav + ACCEL_RATE;
    }
    if input.right {
        x_deltav = x_deltav + ACCEL_RATE;
    }
    let rx = resist(vel.x, x_deltav);
    let ry = resist(vel.y, y_deltav);
    vel.x = clamp_i64(vel.x + rx, -SPEED_LIMIT, SPEED_LIMIT);
    vel.y = clamp_i64(vel.y + ry, -SPEED_LIMIT, SPEED_LIMIT);
}

/// The fighter after one movement tick: the velocity model followed by
/// one integration step.
pub open spec fn move_char_spec(f: Fighter, input: InputSnapshot) -> Fighter {
    let p = Particle {
        velocity: calc_vel_spec(f.char_state.particle.velocity, input),
        ..f.char_state.particle
    };
    Fighter {
        char_state: crate::characters::CharacterState {
            particle: integrate_spec(p, 1),
            ..f.char_state
        },
        ..f
    }
}

/// Moves a fighter for one tick: translates the tick's input into a
/// velocity change, then integrates its particle by one tick.
pub fn move_char(f: &mut Fighter, input: &InputSnapshot)
    requires
        particle_wf(old(f).char_state.particle),
        vec_mag_ok(old(f).char_state.particle.position),
        vec_mag_ok(old(f).char_state.particle.velocity),
        vec_mag_ok(old(f).char_state.particle.acceleration),
        vec_mag_ok(old(f).char_state.particle.force_accumulator),
    ensures
        *final(f) == move_char_spec(*old(f), *input),
        particle_wf(final(f).char_state.particle),
{
    calc_vel(&mut f.char_state.particle.velocity, input);
    f.char_state.particle.integrate(1);
}

/// Law: with no directional input, a moving axis decays strictly toward
/// zero by exactly one unit per tick, never crossing zero.
pub proof fn lemma_resistance_decay(vel: int)
    requires
        -SPEED_LIMIT <= vel <= SPEED_LIMIT,
    ensures
        vel > 0 ==> axis_step(vel, false, false) == if vel >= 1000 {
            vel - 1000
        } else {
            0int
        },
        vel < 0 ==> axis_step(vel, false, false) == if vel <= -1000 {
            vel + 1000
        } else {
            0int
        },
        vel != 0 ==> 0 <= if vel > 0 {
            axis_step(vel, false, false)
        } else {
            -axis_step(vel, false, false)
        } < if vel > 0 {
            vel
        } else {
            -vel
        },
        vel == 0 ==> axis_step(vel, false, false) == 0,
{
}

/// Law: an axis held in one direction gains one acceleration unit per
/// tick until the speed limit, and then holds exactly the limit.
pub proof fn lemma_speed_limit(vel: int)
    requires
        -SPEED_LIMIT <= vel <= SPEED_LIMIT,
    ensures
        vel < SPEED_LIMIT ==> axis_step(vel, false, true) == if vel + 1000 <= SPEED_LIMIT {
            vel + 1000
        } else {
            SPEED_LIMIT as int
        },
        vel < SPEED_LIMIT ==> axis_step(vel, false, true) > vel,
        vel == SPEED_LIMIT ==> axis_step(vel, false, true) == SPEED_LIMIT,
{
}

/// The velocity of an axis after `n` ticks of one held direction.
pub open spec fn held_axis_after(vel: int, n: nat) -> int
    decreases n,
{
    if n == 0 {
        vel
    } else {
        axis_step(held_axis_after(vel, (n - 1) as nat), false, true)
    }
}

/// Law: from rest, holding one direction reaches exactly the speed limit
/// after five ticks and holds it steady from then on.
pub proof fn lemma_held_input_clamps(n: nat)
    ensures
        held_axis_after(0, n) == if n * 1000 <= SPEED_LIMIT {
            (n * 1000) as int
        } else {
            SPEED_LIMIT as int
        },
    decreases n,
{
    if n > 0 {
        lemma_held_input_clamps((n - 1) as nat);
    }
}

} // verus!
