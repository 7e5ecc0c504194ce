//! Playfield and sprite dimensions shared by the physics and the view.

use vstd::prelude::*;

verus! {

/// Playfield width in world units (pixels).
pub const CAM_W: i64 = 1280;

/// Playfield height in world units (pixels).
pub const CAM_H: i64 = 720;

} // verus!
