//! One rigid point mass and its semi-implicit Euler integrator.
//!
//! A particle carries position, velocity, acceleration and an accumulated
//! force, all in fixed-point world units, together with a damping factor
//! and an inverse mass in thousandths.  An inverse mass of zero stands for
//! an immovable body.  One integration step uses the previous step's
//! acceleration for the position update and the freshly recomputed
//! acceleration for the velocity update, then applies drag and clamps.

use vstd::prelude::*;
use crate::fixed::{
    clamp_i64, clamp_spec, damp_factor, damp_pow, div_scale, lemma_damp_pow_bounded,
    lemma_mul_milli_bounded, mul_milli, scale_by_factor, scale_down, FACTOR_MAX, SIM_MAX,
};
use crate::geom::Point;
use crate::vecmath::PhysVec;

verus! {

/// Horizontal position clamp: the playfield half-width minus half a
/// sprite width (640 - 105 world units), in fixed-point units.
pub const POS_X_LIMIT: i64 = 535 * 1000;

/// Horizontal speed clamp, in fixed-point units per tick.
pub const VEL_X_LIMIT: i64 = 1000 * 1000;

/// Lower (upward) vertical speed clamp, in fixed-point units per tick.
pub const VEL_Y_LO: i64 = -2500 * 1000;

/// Upper (downward) vertical speed clamp, in fixed-point units per tick.
pub const VEL_Y_HI: i64 = 1000 * 1000;

/// Vertical respawn height, in fixed-point units.
pub const RESET_Y: i64 = 88 * 1000;

/// Longest integration step accepted, in ticks.
pub const DT_MAX: i32 = 3600;

#[derive(Clone, Copy, Debug, PartialEq, Eq, Structural)]
pub struct Particle {
    pub position: PhysVec,
    pub velocity: PhysVec,
    pub acceleration: PhysVec,
    pub damping: i64,
    pub inverse_mass: i64,
    pub force_accumulator: PhysVec,
}

/// The dimensionless factors lie in their fixed-point ranges.
pub open spec fn particle_wf(p: Particle) -> bool {
    &&& 0 <= p.damping <= 1000
    &&& 0 <= p.inverse_mass <= FACTOR_MAX
}

/// Both components lie within the integrator's quantity bound.
pub open spec fn vec_mag_ok(v: PhysVec) -> bool {
    &&& -SIM_MAX <= v.x <= SIM_MAX
    &&& -SIM_MAX <= v.y <= SIM_MAX
}

/// Every quantity of the particle lies within the integrator's bound.
pub open spec fn particle_in_range(p: Particle) -> bool {
    &&& vec_mag_ok(p.position)
    &&& vec_mag_ok(p.velocity)
    &&& vec_mag_ok(p.acceleration)
    &&& vec_mag_ok(p.force_accumulator)
}

/// The particle after one integration step of `dt` ticks, `dt >= 1`:
/// position moves by the old velocity and is clamped horizontally; the
/// acceleration accumulates force over mass; the velocity moves by the new
/// acceleration, is scaled by the step's damping factor and clamped; the
/// force accumulator is cleared.
pub open spec fn integrate_spec(p: Particle, dt: int) -> Particle {
    let px = clamp_spec(p.position.x + p.velocity.x * dt, -POS_X_LIMIT as int, POS_X_LIMIT as int);
    let py = p.position.y + p.velocity.y * dt;
    let ax = p.acceleration.x + mul_milli(p.force_accumulator.x as int, p.inverse_mass as int);
    let ay = p.acceleration.y + mul_milli(p.force_accumulator.y as int, p.inverse_mass as int);
    let f = damp_pow(p.damping as int, dt as nat);
    let vx = clamp_spec(mul_milli(p.velocity.x + ax * dt, f), -VEL_X_LIMIT as int, VEL_X_LIMIT as int);
    let vy = clamp_spec(mul_milli(p.velocity.y + ay * dt, f), VEL_Y_LO as int, VEL_Y_HI as int);
    Particle {
        position: PhysVec { x: px as i64, y: py as i64 },
        velocity: PhysVec { x: vx as i64, y: vy as i64 },
        acceleration: PhysVec { x: ax as i64, y: ay as i64 },
        damping: p.damping,
        inverse_mass: p.inverse_mass,
        force_accumulator: PhysVec { x: 0i64, y: 0i64 },
    }
}

impl Particle {
    /// A particle at rest at `position`; the inverse mass is one over
    /// `mass` in fixed-point thousandths.
    pub fn new(position: PhysVec, damping: i64, mass: i64) -> (r: Particle)
        requires
            0 <= damping <= 1000,
            1 <= mass,
        ensures
            r.position == position,
            r.velocity == (PhysVec { x: 0i64, y: 0i64 }),
            r.acceleration == (PhysVec { x: 0i64, y: 0i64 }),
            r.force_accumulator == (PhysVec { x: 0i64, y: 0i64 }),
            r.damping == damping,
            r.inverse_mass == 1_000_000int / mass as int,
            particle_wf(r),
    {
        proof {
            vstd::arithmetic::div_mod::lemma_div_nonincreasing(1_000_000int, mass as int);
            vstd::arithmetic::div_mod::lemma_div_pos_is_pos(1_000_000int, mass as int);
        }
        let inverse_mass: i64 = ((1_000_000u64) / (mass as u64)) as i64;
        let zero = PhysVec::new(0, 0);
        Particle {
            position,
            velocity: zero,
            acceleration: zero,
            damping,
            inverse_mass,
            force_accumulator: zero,
        }
    }

    /// The whole-unit point under the fixed-point position, truncated
    /// toward zero.
    pub fn to_point(&self) -> (r: Point)
        requires
            vec_mag_ok(self.position),
        ensures
            r.x == scale_down(self.position.x as int),
            r.y == scale_down(self.position.y as int),
    {
        proof {
            vstd::arithmetic::div_mod::lemma_div_is_ordered(self.position.x as int, SIM_MAX as int, 1000);
            vstd::arithmetic::div_mod::lemma_div_is_ordered(-self.position.x as int, SIM_MAX as int, 1000);
            vstd::arithmetic::div_mod::lemma_div_is_ordered(self.position.y as int, SIM_MAX as int, 1000);
            vstd::arithmetic::div_mod::lemma_div_is_ordered(-self.position.y as int, SIM_MAX as int, 1000);
        }
        let x = div_scale(self.position.x);
        let y = div_scale(self.position.y);
        Point::new(x as i32, y as i32)
    }

    /// Returns the vertical components to their respawn values, leaving
    /// the horizontal ones alone.
    pub fn reset_y(&mut self)
        ensures
            final(self).position == (PhysVec { x: old(self).position.x, y: RESET_Y }),
            final(self).velocity == (PhysVec { x: old(self).velocity.x, y: 0i64 }),
            final(self).acceleration == (PhysVec { x: old(self).acceleration.x, y: 0i64 }),
            final(self).force_accumulator == (PhysVec { x: old(self).force_accumulator.x, y: 0i64 }),
            final(self).damping == old(self).damping,
            final(self).inverse_mass == old(self).inverse_mass,
    {
        self.position.y = RESET_Y;
        self.velocity.y = 0;
        self.acceleration.y = 0;
        self.force_accumulator.y = 0;
    }

    /// Moves the position by the velocity scaled by `time` ticks.
    pub fn update_position(&mut self, time: i64)
        requires
            -crate::fixed::FIXED_MAX <= old(self).position.x + old(self).velocity.x * time
                <= crate::fixed::FIXED_MAX,
            -crate::fixed::FIXED_MAX <= old(self).position.y + old(self).velocity.y * time
                <= crate::fixed::FIXED_MAX,
        ensures
            final(self).position.x == old(self).position.x + old(self).velocity.x * time,
            final(self).position.y == old(self).position.y + old(self).velocity.y * time,
            *final(self) == (Particle { position: final(self).position, ..*old(self) }),
    {
        let vel = self.velocity;
        self.position.add_scaled_product(&vel, time);
    }

    /// One semi-implicit Euler step of `duration` ticks; a step of no
    /// ticks (or a negative one) changes nothing.
    pub fn integrate(&mut self, duration: i32)
        requires
            particle_wf(*old(self)),
            particle_in_range(*old(self)),
            duration <= DT_MAX,
        ensures
            duration <= 0 ==> *final(self) == *old(self),
            duration > 0 ==> *final(self) == integrate_spec(*old(self), duration as int),
            particle_wf(*final(self)),
    {
        if duration <= 0 {
            return;
        }
        let dt: i64 = duration as i64;
        // position moves by the previous tick's velocity
        proof {
            let vel = self.velocity;
            assert(-3_600_000_000_000_000 <= vel.x * dt <= 3_600_000_000_000_000)
                by (nonlinear_arith)
                requires
                    -SIM_MAX <= vel.x <= SIM_MAX && 0 < dt <= 3600,
            ;
            assert(-3_600_000_000_000_000 <= vel.y * dt <= 3_600_000_000_000_000)
                by (nonlinear_arith)
                requires
                    -SIM_MAX <= vel.y <= SIM_MAX && 0 < dt <= 3600,
            ;
        }
        self.update_position(dt);
        self.position.x = clamp_i64(self.position.x, -POS_X_LIMIT, POS_X_LIMIT);
        // acceleration accumulates force over mass
        let fx = scale_by_factor(self.force_accumulator.x, self.inverse_mass);
        let fy = scale_by_factor(self.force_accumulator.y, self.inverse_mass);
        let df = PhysVec { x: fx, y: fy };
        self.acceleration.add_vec(&df);
        // velocity moves by the fresh acceleration
        let acc = self.acceleration;
        proof {
            assert(-3_610_000_000_000_000_000 <= acc.x * dt <= 3_610_000_000_000_000_000)
                by (nonlinear_arith)
                requires
                    -1_001_000_000_000_000 <= acc.x <= 1_001_000_000_000_000 && 0 < dt <= 3600,
            ;
            assert(-3_610_000_000_000_000_000 <= acc.y * dt <= 3_610_000_000_000_000_000)
                by (nonlinear_arith)
                requires
                    -1_001_000_000_000_000 <= acc.y <= 1_001_000_000_000_000 && 0 < dt <= 3600,
            ;
        }
        self.velocity.add_scaled_product(&acc, dt);
        // drag, then clamp
        let f = damp_factor(self.damping, duration as u32);
        self.velocity.dot_replace(f);
        self.velocity.x = clamp_i64(self.velocity.x, -VEL_X_LIMIT, VEL_X_LIMIT);
        self.velocity.y = clamp_i64(self.velocity.y, VEL_Y_LO, VEL_Y_HI);
        self.clear_forces();
    }

    /// Empties the force accumulator.
    pub fn clear_forces(&mut self)
        ensures
            final(self).force_accumulator == (PhysVec { x: 0i64, y: 0i64 }),
            *final(self) == (Particle { force_accumulator: final(self).force_accumulator, ..*old(self) }),
    {
        self.force_accumulator.x = 0;
        self.force_accumulator.y = 0;
    }

    /// Accumulates a force for the next integration step.
    pub fn add_force(&mut self, force: &PhysVec)
        requires
            -crate::fixed::FIXED_MAX <= old(self).force_accumulator.x + force.x
                <= crate::fixed::FIXED_MAX,
            -crate::fixed::FIXED_MAX <= old(self).force_accumulator.y + force.y
                <= crate::fixed::FIXED_MAX,
        ensures
            final(self).force_accumulator.x == old(self).force_accumulator.x + force.x,
            final(self).force_accumulator.y == old(self).force_accumulator.y + force.y,
            *final(self) == (Particle { force_accumulator: final(self).force_accumulator, ..*old(self) }),
    {
        self.force_accumulator.add_vec(force);
    }

    /// Accumulates a force given by its components.
    pub fn add_force_comps(&mut self, x: i64, y: i64)
        requires
            -crate::fixed::FIXED_MAX <= old(self).force_accumulator.x + x
                <= crate::fixed::FIXED_MAX,
            -crate::fixed::FIXED_MAX <= old(self).force_accumulator.y + y
                <= crate::fixed::FIXED_MAX,
        ensures
            final(self).force_accumulator.x == old(self).force_accumulator.x + x,
            final(self).force_accumulator.y == old(self).force_accumulator.y + y,
            *final(self) == (Particle { force_accumulator: final(self).force_accumulator, ..*old(self) }),
    {
        let force = PhysVec::new(x, y);
        self.add_force(&force);
    }
}

/// Law: over one step with no accumulated force and no acceleration, the
/// position moves by exactly the old velocity times the step, and the
/// velocity is exactly the old velocity scaled by the step's damping
/// factor, whenever no clamp cuts in.
pub proof fn lemma_integrate_zero_force(p: Particle, dt: int)
    requires
        particle_wf(p),
        particle_in_range(p),
        0 < dt <= DT_MAX,
        p.force_accumulator == (PhysVec { x: 0i64, y: 0i64 }),
        p.acceleration == (PhysVec { x: 0i64, y: 0i64 }),
        -POS_X_LIMIT <= p.position.x + p.velocity.x * dt <= POS_X_LIMIT,
        -VEL_X_LIMIT <= p.velocity.x <= VEL_X_LIMIT,
        VEL_Y_LO <= p.velocity.y <= VEL_Y_HI,
    ensures
        integrate_spec(p, dt).position.x == p.position.x + p.velocity.x * dt,
        integrate_spec(p, dt).position.y == p.position.y + p.velocity.y * dt,
        integrate_spec(p, dt).velocity.x == mul_milli(
            p.velocity.x as int,
            damp_pow(p.damping as int, dt as nat),
        ),
        integrate_spec(p, dt).velocity.y == mul_milli(
            p.velocity.y as int,
            damp_pow(p.damping as int, dt as nat),
        ),
        integrate_spec(p, dt).acceleration == p.acceleration,
{
    let f = damp_pow(p.damping as int, dt as nat);
    lemma_damp_pow_bounded(p.damping as int, dt as nat);
    lemma_mul_milli_bounded(p.velocity.x as int, f);
    lemma_mul_milli_bounded(p.velocity.y as int, f);
    assert(mul_milli(0, p.inverse_mass as int) == 0);
    assert(0 * dt == 0);
    assert(-3_600_000_000_000_000 <= p.velocity.y * dt <= 3_600_000_000_000_000)
        by (nonlinear_arith)
        requires
            -SIM_MAX <= p.velocity.y <= SIM_MAX && 0 < dt <= 3600,
    ;
}

/// Law: integration is idempotent for a particle at rest under no force:
/// the step returns the particle unchanged.
pub proof fn lemma_integrate_at_rest(p: Particle, dt: int)
    requires
        particle_wf(p),
        particle_in_range(p),
        0 < dt <= DT_MAX,
        p.velocity == (PhysVec { x: 0i64, y: 0i64 }),
        p.acceleration == (PhysVec { x: 0i64, y: 0i64 }),
        p.force_accumulator == (PhysVec { x: 0i64, y: 0i64 }),
        -POS_X_LIMIT <= p.position.x <= POS_X_LIMIT,
    ensures
        integrate_spec(p, dt) == p,
{
    lemma_integrate_zero_force(p, dt);
    assert(p.velocity.x * dt == 0);
    assert(p.velocity.y * dt == 0);
    assert(mul_milli(0, damp_pow(p.damping as int, dt as nat)) == 0);
}

} // verus!
