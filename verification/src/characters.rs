//! Fighters: their animation bookkeeping and their owned particle.

use vstd::prelude::*;
use crate::animation::{frame_cnt_spec, get_frame_cnt, State, FRAME_H, FRAME_W};
use crate::fixed::scale_down;
use crate::geom::Rect;
use crate::particle::{particle_wf, vec_mag_ok, Particle};
use crate::vecmath::PhysVec;

verus! {

/// Horizontal screen offset of a sprite: half the playfield minus half a
/// sprite width, in world units.
pub const SPRITE_OFF_X: i32 = 535;

/// Vertical screen offset of a sprite: half the playfield minus half a
/// sprite height, in world units.
pub const SPRITE_OFF_Y: i32 = 210;

/// Damping factor of a fighter's particle: no drag; deceleration comes
/// from the input resistance model instead.
pub const FIGHTER_DAMPING: i64 = 1000;

/// Mass of a fighter's particle, in fixed-point units.
pub const FIGHTER_MASS: i64 = 1000;

/// The selectable characters.
#[derive(Clone, Copy, Debug, PartialEq, Eq, Structural)]
pub enum Characters {
    Python,
    Java,
}

/// A fighter's animation state and its owned point mass.  The sprite
/// rectangle is recomputed from the particle's position every tick.
#[derive(Clone, Copy, Debug, PartialEq, Eq, Structural)]
pub struct CharacterState {
    pub particle: Particle,
    pub state: State,
    pub current_frame: i32,
    pub sprite: Rect,
}

/// The particle's factors are in range and the animation frame indexes an
/// existing frame of the current state.
pub open spec fn char_state_wf(c: CharacterState) -> bool {
    &&& particle_wf(c.particle)
    &&& 0 <= c.current_frame < frame_cnt_spec(c.state)
}

impl CharacterState {
    /// A fighter at the origin, idle, on its first animation frame.
    pub fn new() -> (r: CharacterState)
        ensures
            r.particle.position == (PhysVec { x: 0i64, y: 0i64 }),
            r.particle.velocity == (PhysVec { x: 0i64, y: 0i64 }),
            r.particle.acceleration == (PhysVec { x: 0i64, y: 0i64 }),
            r.particle.force_accumulator == (PhysVec { x: 0i64, y: 0i64 }),
            r.particle.damping == FIGHTER_DAMPING,
            r.particle.inverse_mass == 1000,
            r.state == State::Idle,
            r.current_frame == 0,
            r.sprite == (Rect { x: SPRITE_OFF_X, y: SPRITE_OFF_Y, w: FRAME_W, h: FRAME_H }),
            char_state_wf(r),
    {
        let particle = Particle::new(PhysVec::new(0, 0), FIGHTER_DAMPING, FIGHTER_MASS);
        CharacterState {
            particle,
            state: State::Idle,
            current_frame: 0,
            sprite: Rect::new(SPRITE_OFF_X, SPRITE_OFF_Y, FRAME_W, FRAME_H),
        }
    }

    /// Switches the animation state; entering a different state restarts
    /// its animation at the first frame.
    pub fn set_state(&mut self, s: State)
        ensures
            final(self).state == s,
            final(self).current_frame == if old(self).state == s {
                old(self).current_frame
            } else {
                0
            },
            final(self).particle == old(self).particle,
            final(self).sprite == old(self).sprite,
            char_state_wf(*old(self)) ==> char_state_wf(*final(self)),
    {
        if !(self.state == s) {
            self.state = s;
            self.current_frame = 0;
        }
    }

    /// Steps to the next animation frame, wrapping at the end of the
    /// current state's frames.
    pub fn advance_frame(&mut self)
        requires
            char_state_wf(*old(self)),
        ensures
            final(self).current_frame == if old(self).current_frame + 1
                == frame_cnt_spec(old(self).state) {
                0int
            } else {
                old(self).current_frame + 1
            },
            final(self).state == old(self).state,
            final(self).particle == old(self).particle,
            final(self).sprite == old(self).sprite,
            char_state_wf(*final(self)),
    {
        let cnt = get_frame_cnt(self);
        if self.current_frame + 1 == cnt {
            self.current_frame = 0;
        } else {
            self.current_frame = self.current_frame + 1;
        }
    }

    /// Recomputes the sprite's bounding rectangle from the particle's
    /// authoritative position.
    pub fn sync_sprite(&mut self)
        requires
            vec_mag_ok(old(self).particle.position),
        ensures
            final(self).sprite == (Rect {
                x: (scale_down(old(self).particle.position.x as int) + SPRITE_OFF_X) as i32,
                y: (scale_down(old(self).particle.position.y as int) + SPRITE_OFF_Y) as i32,
                w: FRAME_W,
                h: FRAME_H,
            }),
            final(self).particle == old(self).particle,
            final(self).state == old(self).state,
            final(self).current_frame == old(self).current_frame,
    {
        let p = self.particle.to_point();
        self.sprite = Rect::new(p.x + SPRITE_OFF_X, p.y + SPRITE_OFF_Y, FRAME_W, FRAME_H);
    }
}

/// A fighter: a named character and its state.
#[derive(Clone, Copy, Debug, PartialEq, Eq, Structural)]
pub struct Fighter {
    pub char_state: CharacterState,
    pub name: Characters,
}

impl Fighter {
    pub fn new(char_state: CharacterState) -> (r: Fighter)
        ensures
            r.char_state == char_state,
            r.name == Characters::Python,
    {
        Fighter { char_state, name: Characters::Python }
    }
}

} // verus!
