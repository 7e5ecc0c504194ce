//! The falling hazard and its scripted motion.
//!
//! Each tick the hazard falls a fixed number of units until it reaches
//! the floor line; there it is returned to its spawn position and its
//! fallen flag is cleared.

use vstd::prelude::*;
use crate::geom::{Point, Rect};

verus! {

/// Horizontal spawn coordinate of the hazard, in world units.
pub const HAZARD_SPAWN_X: i32 = 590;

/// Vertical spawn coordinate of the hazard, in world units.
pub const HAZARD_SPAWN_Y: i32 = 0;

/// Side length of the hazard's square sprite.
pub const HAZARD_SIZE: u32 = 100;

/// Units the hazard falls per tick.
pub const HAZARD_FALL_STEP: i32 = 7;

/// Vertical line at which the hazard is returned to its spawn.
pub const HAZARD_FLOOR_Y: i32 = 600;

/// The falling hazard: its sprite rectangle, its position and whether it
/// has landed on something this fall.
#[derive(Clone, Copy, Debug, PartialEq, Eq, Structural)]
pub struct Hazard {
    pub sprite: Rect,
    pub position: Point,
    pub fell: bool,
}

/// The hazard one scripted step later: it falls while above the floor
/// line and has not landed; reaching the floor line returns it to its
/// spawn with the flag cleared.
pub open spec fn hazard_step_spec(h: Hazard) -> Hazard {
    let moved = if h.sprite.y < HAZARD_FLOOR_Y && !h.fell {
        Hazard { sprite: Rect { y: (h.sprite.y + HAZARD_FALL_STEP) as i32, ..h.sprite }, ..h }
    } else {
        h
    };
    if moved.sprite.y >= HAZARD_FLOOR_Y {
        Hazard {
            sprite: Rect { x: HAZARD_SPAWN_X, y: HAZARD_SPAWN_Y, w: HAZARD_SIZE, h: HAZARD_SIZE },
            position: Point { x: HAZARD_SPAWN_X, y: HAZARD_SPAWN_Y },
            fell: false,
        }
    } else {
        moved
    }
}

impl Hazard {
    /// A hazard at its spawn, not yet fallen.
    pub fn new() -> (r: Hazard)
        ensures
            r.sprite == (Rect {
                x: HAZARD_SPAWN_X,
                y: HAZARD_SPAWN_Y,
                w: HAZARD_SIZE,
                h: HAZARD_SIZE,
            }),
            r.position == (Point { x: HAZARD_SPAWN_X, y: HAZARD_SPAWN_Y }),
            r.fell == false,
    {
        Hazard {
            sprite: Rect::new(HAZARD_SPAWN_X, HAZARD_SPAWN_Y, HAZARD_SIZE, HAZARD_SIZE),
            position: Point::new(HAZARD_SPAWN_X, HAZARD_SPAWN_Y),
            fell: false,
        }
    }

    /// Returns the hazard to its spawn position.
    pub fn reset(&mut self)
        ensures
            final(self).sprite == (Rect {
                x: HAZARD_SPAWN_X,
                y: HAZARD_SPAWN_Y,
                w: HAZARD_SIZE,
                h: HAZARD_SIZE,
            }),
            final(self).position == (Point { x: HAZARD_SPAWN_X, y: HAZARD_SPAWN_Y }),
            final(self).fell == old(self).fell,
    {
        self.sprite = Rect::new(HAZARD_SPAWN_X, HAZARD_SPAWN_Y, HAZARD_SIZE, HAZARD_SIZE);
        self.position = Point::new(HAZARD_SPAWN_X, HAZARD_SPAWN_Y);
    }

    /// One scripted step, as [`hazard_step_spec`] describes.
    pub fn step(&mut self)
        requires
            -1_000_000_000 <= old(self).sprite.y <= 1_000_000_000,
        ensures
            *final(self) == hazard_step_spec(*old(self)),
    {
        if self.sprite.y() < HAZARD_FLOOR_Y && self.fell == false {
            self.sprite.offset(0, HAZARD_FALL_STEP);
        }
        if self.sprite.y() >= HAZARD_FLOOR_Y {
            self.reset();
            self.fell = false;
        }
    }
}

} // verus!
