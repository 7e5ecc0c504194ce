//! Sprite-sheet animation states and frame geometry.

use vstd::prelude::*;
use crate::characters::CharacterState;
use crate::geom::Rect;

verus! {

/// Frame width on the sprite sheet, in pixels.
pub const FRAME_W: u32 = 210;

/// Frame height on the sprite sheet, in pixels.
pub const FRAME_H: u32 = 300;

/// Vertical offset of every frame on the sprite sheet.
pub const FRAME_Y: i32 = 0;

/// The animation states a fighter can be in.
#[derive(Clone, Copy, Debug, Hash, PartialEq, Eq, Structural)]
pub enum State {
    Idle,
    Walk,
    Jump,
    FJump,
    LPunch,
    LKick,
    HKick,
    Block,
}

/// Number of animation frames of each state.
pub open spec fn frame_cnt_spec(s: State) -> int {
    match s {
        State::Idle => 5,
        State::Walk => 6,
        State::Jump => 6,
        State::FJump => 7,
        State::LPunch => 3,
        State::LKick => 3,
        State::HKick => 5,
        State::Block => 1,
    }
}

/// The sprite-sheet source rectangle of frame `f`.
pub fn get_rectangle(f: u32) -> (r: Rect)
    requires
        f <= 10_000,
    ensures
        r == (Rect { x: (FRAME_W * f) as i32, y: FRAME_Y, w: FRAME_W, h: FRAME_H }),
{
    let x: u32 = FRAME_W * f;
    Rect::new(x as i32, FRAME_Y, FRAME_W, FRAME_H)
}

/// The number of frames of one animation state.
pub fn frame_cnt_of(s: State) -> (r: i32)
    ensures
        r == frame_cnt_spec(s),
        1 <= r <= 7,
{
    match s {
        State::Idle => 5,
        State::Walk => 6,
        State::Jump => 6,
        State::FJump => 7,
        State::LPunch => 3,
        State::LKick => 3,
        State::HKick => 5,
        State::Block => 1,
    }
}

/// The number of frames of the character's current animation state.
pub fn get_frame_cnt(c: &CharacterState) -> (r: i32)
    ensures
        r == frame_cnt_spec(c.state),
        1 <= r <= 7,
{
    frame_cnt_of(c.state)
}

} // verus!
