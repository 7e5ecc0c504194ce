//! The fixed-tick game loop's decision core.
//!
//! One server tick applies both players' collected input, advances the
//! animations, runs the movement model and the integrator, rebuilds the
//! bounding-volume hierarchy from the new positions, resolves collisions,
//! advances the hazard's scripted motion and produces the snapshot to
//! broadcast.  One client step consumes the front of the smoothing buffer
//! and applies it to the rendered fighters.  All socket work stays with
//! the caller: it hands datagram payloads in and takes payloads out.

use vstd::prelude::*;
use crate::animation::{frame_cnt_spec, State, FRAME_H, FRAME_W};
use crate::characters::{CharacterState, Fighter, SPRITE_OFF_X, SPRITE_OFF_Y};
use crate::collision::{
    obj_ok, obj_preserved, objs_preserved, pairwise_disjoint, BVHierarchy, CollisionObject,
    CollisionObjectType, RECT_POS_MAX,
};
use crate::fixed::scale_down;
use crate::geom::{overlap, rect_wf, Point, Rect};
use crate::hazard::{hazard_step_spec, Hazard};
use crate::input::{move_char, move_char_spec, InputSnapshot};
use crate::particle::{particle_in_range, Particle};
use crate::transmit::GameState;
use crate::vecmath::PhysVec;

verus! {

/// Entity slot of the first fighter in the collision hierarchy.
pub const FIGHTER1_ENT: usize = 0;

/// Entity slot of the second fighter.
pub const FIGHTER2_ENT: usize = 1;

/// Entity slot of the hazard.
pub const HAZARD_ENT: usize = 2;

/// Entity slot of the platform.
pub const PLATFORM_ENT: usize = 3;

/// Damping of the hazard's and platform's particles.
pub const SCENERY_DAMPING: i64 = 500;

/// Mass of the hazard's particle, in fixed-point units (two hundred).
pub const HAZARD_MASS: i64 = 200_000;

/// Mass of the platform's particle, in fixed-point units; large enough
/// that its inverse mass rounds to zero, making the platform immovable.
pub const PLATFORM_MASS: i64 = 2_000_000_000_000;

/// Position bound under which a tick's own motion cannot leave the
/// integrator's range nor the collision system's coordinate bound.
pub const WORLD_POS_MAX: i64 = 99_000_000_000;

/// The authoritative server-side state of one match.
pub struct World {
    pub fighter1: Fighter,
    pub fighter2: Fighter,
    pub hazard: Hazard,
    pub platform: Rect,
}

/// The animation state the server gives a fighter for one tick's input.
pub open spec fn state_for_input(i: InputSnapshot) -> State {
    if i.up {
        State::Jump
    } else if i.left || i.right {
        State::Walk
    } else {
        State::Idle
    }
}

/// The character after the tick's input is applied: the input's state is
/// entered (restarting its animation when it differs) and the frame then
/// advances by one, wrapping.
pub open spec fn staged_char(c: CharacterState, s: State) -> CharacterState {
    let base = if c.state == s {
        c.current_frame as int
    } else {
        0int
    };
    let next = if base + 1 == frame_cnt_spec(s) {
        0int
    } else {
        base + 1
    };
    CharacterState { state: s, current_frame: next as i32, ..c }
}

/// The character with its sprite rectangle recomputed from its particle.
pub open spec fn synced_char(c: CharacterState) -> CharacterState {
    CharacterState {
        sprite: Rect {
            x: (scale_down(c.particle.position.x as int) + SPRITE_OFF_X) as i32,
            y: (scale_down(c.particle.position.y as int) + SPRITE_OFF_Y) as i32,
            w: FRAME_W,
            h: FRAME_H,
        },
        ..c
    }
}

/// The fighter after one tick's input, movement and sprite refresh,
/// before collision resolution.
pub open spec fn fighter_after_move(f: Fighter, input: InputSnapshot) -> Fighter {
    let staged = Fighter {
        char_state: staged_char(f.char_state, state_for_input(input)),
        ..f
    };
    let moved = move_char_spec(staged, input);
    Fighter { char_state: synced_char(moved.char_state), ..moved }
}

/// The collision object a moved fighter contributes.
pub open spec fn fighter_object(f: Fighter, ent: usize) -> CollisionObject {
    CollisionObject {
        kind: CollisionObjectType::Fighter,
        ent,
        rect: f.char_state.sprite,
        particle: f.char_state.particle,
    }
}

/// The rectangle of the hazard's collision body: anchored at the
/// hazard's position, which stays at the spawn while the sprite runs its
/// scripted fall.  The hierarchy is seeded with this body, so the fall
/// itself passes through the platform and reaches the respawn line.
pub open spec fn hazard_box(h: Hazard) -> Rect {
    Rect {
        x: h.position.x,
        y: h.position.y,
        w: crate::hazard::HAZARD_SIZE,
        h: crate::hazard::HAZARD_SIZE,
    }
}

/// The collision object the hazard contributes: its anchored body and a
/// particle of its mass at the body's corner.
pub open spec fn hazard_object(h: Hazard) -> CollisionObject {
    CollisionObject {
        kind: CollisionObjectType::Hazard,
        ent: HAZARD_ENT,
        rect: hazard_box(h),
        particle: Particle {
            position: PhysVec { x: (h.position.x * 1000) as i64, y: (h.position.y * 1000) as i64 },
            velocity: PhysVec { x: 0i64, y: 0i64 },
            acceleration: PhysVec { x: 0i64, y: 0i64 },
            damping: SCENERY_DAMPING,
            inverse_mass: 5,
            force_accumulator: PhysVec { x: 0i64, y: 0i64 },
        },
    }
}

/// The collision object the platform contributes; its inverse mass is
/// zero, so it never moves.
pub open spec fn platform_object(platform: Rect) -> CollisionObject {
    CollisionObject {
        kind: CollisionObjectType::Platform,
        ent: PLATFORM_ENT,
        rect: platform,
        particle: Particle {
            position: PhysVec { x: (platform.x * 1000) as i64, y: (platform.y * 1000) as i64 },
            velocity: PhysVec { x: 0i64, y: 0i64 },
            acceleration: PhysVec { x: 0i64, y: 0i64 },
            damping: SCENERY_DAMPING,
            inverse_mass: 0,
            force_accumulator: PhysVec { x: 0i64, y: 0i64 },
        },
    }
}

/// A fighter the tick scheduler accepts: well-formed animation state and
/// a particle at rest force-wise, within the integrator's range.
pub open spec fn fighter_ok(f: Fighter) -> bool {
    &&& crate::characters::char_state_wf(f.char_state)
    &&& particle_in_range(f.char_state.particle)
    &&& f.char_state.particle.acceleration == (PhysVec { x: 0i64, y: 0i64 })
    &&& f.char_state.particle.force_accumulator == (PhysVec { x: 0i64, y: 0i64 })
}

/// A scenery rectangle the collision system accepts: all four edges
/// within the hierarchy's coordinate bound.
pub open spec fn scenery_rect_ok(r: Rect) -> bool {
    rect_wf(r)
}

/// A world the tick scheduler accepts and hands back.
pub open spec fn world_wf(w: World) -> bool {
    &&& fighter_ok(w.fighter1)
    &&& fighter_ok(w.fighter2)
    &&& scenery_rect_ok(w.platform)
}

/// The per-tick position bounds under which one tick cannot leave the
/// machine ranges.  A tick preserves them in every reachable play state
/// but not in the extreme corners of the ranges, so the loop driving the
/// ticks re-checks them with [`world_in_bounds_check`] each tick.
pub open spec fn world_in_bounds(w: World) -> bool {
    &&& -WORLD_POS_MAX <= w.fighter1.char_state.particle.position.x <= WORLD_POS_MAX
    &&& -WORLD_POS_MAX <= w.fighter1.char_state.particle.position.y <= WORLD_POS_MAX
    &&& -WORLD_POS_MAX <= w.fighter2.char_state.particle.position.x <= WORLD_POS_MAX
    &&& -WORLD_POS_MAX <= w.fighter2.char_state.particle.position.y <= WORLD_POS_MAX
    &&& scenery_rect_ok(w.hazard.sprite)
    &&& scenery_rect_ok(hazard_box(w.hazard))
}

/// Decides [`world_in_bounds`] at run time.
pub fn world_in_bounds_check(w: &World) -> (r: bool)
    ensures
        r == world_in_bounds(*w),
{
    let p1 = &w.fighter1.char_state.particle.position;
    let p2 = &w.fighter2.char_state.particle.position;
    let hs = &w.hazard.sprite;
    let hp = &w.hazard.position;
    -WORLD_POS_MAX <= p1.x && p1.x <= WORLD_POS_MAX && -WORLD_POS_MAX <= p1.y && p1.y
        <= WORLD_POS_MAX && -WORLD_POS_MAX <= p2.x && p2.x <= WORLD_POS_MAX && -WORLD_POS_MAX
        <= p2.y && p2.y <= WORLD_POS_MAX && {
        let x: i64 = hs.x as i64;
        let y: i64 = hs.y as i64;
        let wdt: i64 = hs.w as i64;
        let hgt: i64 = hs.h as i64;
        -100_000_000 <= x && x + wdt <= 100_000_000 && -100_000_000 <= y && y + hgt
            <= 100_000_000
    } && {
        let x: i64 = hp.x as i64;
        let y: i64 = hp.y as i64;
        -100_000_000 <= x && x + 100 <= 100_000_000 && -100_000_000 <= y && y + 100
            <= 100_000_000
    }
}

/// The snapshot of two fighters, in whole world units.
pub open spec fn snapshot_spec(f1: Fighter, f2: Fighter) -> GameState {
    GameState {
        p1_position: Point {
            x: scale_down(f1.char_state.particle.position.x as int) as i32,
            y: scale_down(f1.char_state.particle.position.y as int) as i32,
        },
        p1_velocity: Point {
            x: scale_down(f1.char_state.particle.velocity.x as int) as i32,
            y: scale_down(f1.char_state.particle.velocity.y as int) as i32,
        },
        p1_state: f1.char_state.state,
        p1_frame: f1.char_state.current_frame,
        p2_position: Point {
            x: scale_down(f2.char_state.particle.position.x as int) as i32,
            y: scale_down(f2.char_state.particle.position.y as int) as i32,
        },
        p2_velocity: Point {
            x: scale_down(f2.char_state.particle.velocity.x as int) as i32,
            y: scale_down(f2.char_state.particle.velocity.y as int) as i32,
        },
        p2_state: f2.char_state.state,
        p2_frame: f2.char_state.current_frame,
    }
}

impl World {
    /// A fresh match: the first fighter at the origin, the second three
    /// hundred units to the right, the hazard at its spawn, and the given
    /// platform.
    pub fn new(platform: Rect) -> (r: World)
        requires
            scenery_rect_ok(platform),
        ensures
            world_wf(r),
            r.platform == platform,
            r.fighter1.char_state.particle.position == (PhysVec { x: 0i64, y: 0i64 }),
            r.fighter2.char_state.particle.position == (PhysVec { x: 300_000i64, y: 0i64 }),
            r.fighter1.name == crate::characters::Characters::Python,
            r.fighter2.name == crate::characters::Characters::Java,
            r.hazard.fell == false,
    {
        let c1 = CharacterState::new();
        let fighter1 = Fighter::new(c1);
        let mut c2 = CharacterState::new();
        c2.particle.position.replace(&PhysVec::new(300_000, 0));
        let mut fighter2 = Fighter::new(c2);
        fighter2.name = crate::characters::Characters::Java;
        World { fighter1, fighter2, hazard: Hazard::new(), platform }
    }
}

fn input_state(i: &InputSnapshot) -> (r: State)
    ensures
        r == state_for_input(*i),
{
    if i.up {
        State::Jump
    } else if i.left || i.right {
        State::Walk
    } else {
        State::Idle
    }
}

/// A sequence whose multiset is four bodies with pairwise distinct
/// entity slots holds exactly those four, each once.
proof fn lemma_four_objects(
    s: Seq<CollisionObject>,
    a: CollisionObject,
    b: CollisionObject,
    c: CollisionObject,
    d: CollisionObject,
)
    requires
        s.to_multiset() == seq![a].to_multiset().insert(b).insert(c).insert(d),
        a.ent != b.ent,
        a.ent != c.ent,
        a.ent != d.ent,
        b.ent != c.ent,
        b.ent != d.ent,
        c.ent != d.ent,
    ensures
        s.len() == 4,
        forall|i: int| 0 <= i < s.len() ==> (#[trigger] s[i] == a || s[i] == b || s[i] == c
            || s[i] == d),
        s.no_duplicates(),
{
    broadcast use vstd::seq_lib::group_to_multiset_ensures;
    broadcast use vstd::multiset::group_multiset_axioms;

    let m0 = seq![a].to_multiset();
    let m = m0.insert(b).insert(c).insert(d);
    assert(seq![a] =~= Seq::<CollisionObject>::empty().push(a));
    assert(m0 =~= Seq::<CollisionObject>::empty().to_multiset().insert(a));
    assert(Seq::<CollisionObject>::empty().to_multiset().len() == 0);
    assert(forall|x: CollisionObject| #[trigger] Seq::<CollisionObject>::empty().to_multiset().count(
        x,
    ) == 0) by {
        assert forall|x: CollisionObject| #[trigger] Seq::<CollisionObject>::empty().to_multiset().count(
            x,
        ) == 0 by {
            assert(!Seq::<CollisionObject>::empty().contains(x));
        }
    }
    assert(m0.count(a) == 1);
    assert(s.to_multiset().len() == s.len());
    assert(m0.len() == 1);
    assert(s.len() == 4);
    assert forall|i: int| 0 <= i < s.len() implies (#[trigger] s[i] == a || s[i] == b || s[i] == c
        || s[i] == d) by {
        let x = s[i];
        assert(s.contains(x));
        assert(s.to_multiset().count(x) > 0);
        if x != a && x != b && x != c && x != d {
            assert(!seq![a].contains(x));
            assert(m0.count(x) == 0);
            assert(m.count(x) == 0);
            assert(false);
        }
    }
    assert forall|x: CollisionObject| s.to_multiset().contains(x) implies s.to_multiset().count(x)
        == 1 by {
        assert(s.to_multiset().count(x) > 0);
        assert(s.contains(x));
        assert(x == a || x == b || x == c || x == d);
        assert(m0.count(b) == 0 && m0.count(c) == 0 && m0.count(d) == 0);
        assert(m.count(a) == 1 && m.count(b) == 1 && m.count(c) == 1 && m.count(d) == 1);
    }
    s.lemma_multiset_has_no_duplicates_conv();
}

/// One movement tick keeps a fighter well-formed: the position stays
/// within the integrator's range, the velocity within its clamps, no
/// force or acceleration accumulates, and the refreshed sprite lies
/// within the hierarchy's coordinate bound.
proof fn lemma_move_keeps_fighter(f: Fighter, input: InputSnapshot, ent: usize)
    requires
        fighter_ok(f),
        -WORLD_POS_MAX <= f.char_state.particle.position.x <= WORLD_POS_MAX,
        -WORLD_POS_MAX <= f.char_state.particle.position.y <= WORLD_POS_MAX,
    ensures
        ({
            let m = fighter_after_move(f, input);
            &&& particle_in_range(m.char_state.particle)
            &&& m.char_state.particle.acceleration == (PhysVec { x: 0i64, y: 0i64 })
            &&& m.char_state.particle.force_accumulator == (PhysVec { x: 0i64, y: 0i64 })
            &&& m.char_state.particle.damping == f.char_state.particle.damping
            &&& m.char_state.particle.inverse_mass == f.char_state.particle.inverse_mass
            &&& -WORLD_POS_MAX - 3_000_000 <= m.char_state.particle.position.y <= WORLD_POS_MAX
                + 3_000_000
            &&& rect_wf(m.char_state.sprite)
            &&& obj_ok(fighter_object(m, ent))
            &&& crate::characters::char_state_wf(m.char_state)
                == crate::characters::char_state_wf(
                CharacterState { sprite: m.char_state.sprite, ..m.char_state },
            )
        }),
{
    let staged = Fighter { char_state: staged_char(f.char_state, state_for_input(input)), ..f };
    let v1 = crate::input::calc_vel_spec(f.char_state.particle.velocity, input);
    assert(-5000 <= v1.x <= 5000 && -5000 <= v1.y <= 5000);
    let p1 = Particle { velocity: v1, ..f.char_state.particle };
    let p2 = crate::particle::integrate_spec(p1, 1);
    assert(crate::fixed::mul_milli(0, p1.inverse_mass as int) == 0);
    assert(p2.acceleration == (PhysVec { x: 0i64, y: 0i64 }));
    assert(-crate::particle::POS_X_LIMIT <= p2.position.x <= crate::particle::POS_X_LIMIT);
    assert(p2.position.y == p1.position.y + v1.y * 1);
    assert(-WORLD_POS_MAX - 3_000_000 <= p2.position.y <= WORLD_POS_MAX + 3_000_000);
    assert(-crate::particle::VEL_X_LIMIT <= p2.velocity.x <= crate::particle::VEL_X_LIMIT);
    assert(crate::particle::VEL_Y_LO <= p2.velocity.y <= crate::particle::VEL_Y_HI);
    let m = fighter_after_move(f, input);
    assert(m.char_state.particle == p2);
    crate::fixed::lemma_scale_down_ordered(p2.position.x as int, 535_000);
    crate::fixed::lemma_scale_down_ordered(p2.position.y as int, WORLD_POS_MAX + 3_000_000);
}

/// Whether none of the four bodies a tick contributes touches another,
/// once the fighters have moved.
pub open spec fn tick_contact_free(w: World, in1: InputSnapshot, in2: InputSnapshot) -> bool {
    let f1 = fighter_object(fighter_after_move(w.fighter1, in1), FIGHTER1_ENT);
    let f2 = fighter_object(fighter_after_move(w.fighter2, in2), FIGHTER2_ENT);
    let hz = hazard_object(w.hazard);
    let pf = platform_object(w.platform);
    &&& !overlap(f1.rect, f2.rect)
    &&& !overlap(f1.rect, hz.rect)
    &&& !overlap(f1.rect, pf.rect)
    &&& !overlap(f2.rect, hz.rect)
    &&& !overlap(f2.rect, pf.rect)
    &&& !overlap(hz.rect, pf.rect)
}

/// One authoritative server tick: apply the collected inputs, advance
/// the animations, run movement and integration, rebuild the hierarchy
/// from the new positions, resolve collisions, advance the hazard's
/// scripted motion, and return the snapshot to broadcast.
pub fn server_tick(w: &mut World, in1: InputSnapshot, in2: InputSnapshot) -> (r: GameState)
    requires
        world_wf(*old(w)),
        world_in_bounds(*old(w)),
    ensures
        world_wf(*final(w)),
        final(w).hazard == hazard_step_spec(
            Hazard { position: final(w).hazard.position, ..old(w).hazard },
        ),
        -RECT_POS_MAX <= final(w).hazard.position.x <= RECT_POS_MAX,
        -RECT_POS_MAX <= final(w).hazard.position.y <= RECT_POS_MAX,
        final(w).platform == old(w).platform,
        final(w).fighter1.name == old(w).fighter1.name,
        final(w).fighter2.name == old(w).fighter2.name,
        final(w).fighter1.char_state.state == state_for_input(in1),
        final(w).fighter2.char_state.state == state_for_input(in2),
        final(w).fighter1.char_state.current_frame == staged_char(
            old(w).fighter1.char_state,
            state_for_input(in1),
        ).current_frame,
        final(w).fighter2.char_state.current_frame == staged_char(
            old(w).fighter2.char_state,
            state_for_input(in2),
        ).current_frame,
        final(w).fighter1.char_state.particle.damping
            == old(w).fighter1.char_state.particle.damping,
        final(w).fighter1.char_state.particle.inverse_mass
            == old(w).fighter1.char_state.particle.inverse_mass,
        final(w).fighter2.char_state.particle.damping
            == old(w).fighter2.char_state.particle.damping,
        final(w).fighter2.char_state.particle.inverse_mass
            == old(w).fighter2.char_state.particle.inverse_mass,
        r == snapshot_spec(final(w).fighter1, final(w).fighter2),
        tick_contact_free(*old(w), in1, in2) ==> {
            &&& final(w).fighter1 == fighter_after_move(old(w).fighter1, in1)
            &&& final(w).fighter2 == fighter_after_move(old(w).fighter2, in2)
            &&& final(w).hazard == hazard_step_spec(old(w).hazard)
        },
{
    let ghost w0 = *old(w);
    // apply inputs to the fighters' animation state, advance the frame
    let s1 = input_state(&in1);
    w.fighter1.char_state.set_state(s1);
    w.fighter1.char_state.advance_frame();
    let s2 = input_state(&in2);
    w.fighter2.char_state.set_state(s2);
    w.fighter2.char_state.advance_frame();
    // movement: input to velocity, then one integration step
    move_char(&mut w.fighter1, &in1);
    move_char(&mut w.fighter2, &in2);
    // bounding rectangles from the new authoritative positions
    proof {
        crate::fixed::lemma_scale_down_ordered(
            w.fighter1.char_state.particle.position.y as int,
            WORLD_POS_MAX + 3_000_000,
        );
        crate::fixed::lemma_scale_down_ordered(
            w.fighter2.char_state.particle.position.y as int,
            WORLD_POS_MAX + 3_000_000,
        );
    }
    w.fighter1.char_state.sync_sprite();
    w.fighter2.char_state.sync_sprite();
    let ghost f1m = fighter_after_move(w0.fighter1, in1);
    let ghost f2m = fighter_after_move(w0.fighter2, in2);
    proof {
        lemma_move_keeps_fighter(w0.fighter1, in1, FIGHTER1_ENT);
        lemma_move_keeps_fighter(w0.fighter2, in2, FIGHTER2_ENT);
        assert(w.fighter1 == f1m);
        assert(w.fighter2 == f2m);
    }
    // rebuild the hierarchy: platform root, then hazard and fighters
    let pf_particle = Particle::new(
        PhysVec::new((w.platform.x as i64) * 1000, (w.platform.y as i64) * 1000),
        SCENERY_DAMPING,
        PLATFORM_MASS,
    );
    let pf_obj = CollisionObject::new_from(
        CollisionObjectType::Platform,
        PLATFORM_ENT,
        w.platform,
        pf_particle,
    );
    let hz_particle = Particle::new(
        PhysVec::new((w.hazard.position.x as i64) * 1000, (w.hazard.position.y as i64) * 1000),
        SCENERY_DAMPING,
        HAZARD_MASS,
    );
    let hz_rect = Rect::new(
        w.hazard.position.x,
        w.hazard.position.y,
        crate::hazard::HAZARD_SIZE,
        crate::hazard::HAZARD_SIZE,
    );
    let hz_obj = CollisionObject::new_from(
        CollisionObjectType::Hazard,
        HAZARD_ENT,
        hz_rect,
        hz_particle,
    );
    let f1_obj = CollisionObject::new_from(
        CollisionObjectType::Fighter,
        FIGHTER1_ENT,
        w.fighter1.char_state.sprite,
        w.fighter1.char_state.particle,
    );
    let f2_obj = CollisionObject::new_from(
        CollisionObjectType::Fighter,
        FIGHTER2_ENT,
        w.fighter2.char_state.sprite,
        w.fighter2.char_state.particle,
    );
    proof {
        assert(pf_obj == platform_object(w0.platform));
        assert(hz_obj == hazard_object(w0.hazard));
        assert(f1_obj == fighter_object(f1m, FIGHTER1_ENT));
        assert(f2_obj == fighter_object(f2m, FIGHTER2_ENT));
    }
    let mut collisions = BVHierarchy::new(pf_obj);
    collisions.insert(hz_obj);
    collisions.insert(f1_obj);
    collisions.insert(f2_obj);
    let ghost pre = collisions@;
    proof {
        lemma_four_objects(pre, pf_obj, hz_obj, f1_obj, f2_obj);
        crate::collision::lemma_wf_objs_ok(collisions.head);
    }
    collisions.resolve_collisions();
    proof {
        crate::collision::lemma_objs_ok_all(collisions.head);
        if tick_contact_free(w0, in1, in2) {
            assert forall|i: int, j: int| 0 <= i < j < pre.len() implies !overlap(
                pre[i].rect,
                pre[j].rect,
            ) by {
                assert(pre[i] == pf_obj || pre[i] == hz_obj || pre[i] == f1_obj || pre[i]
                    == f2_obj);
                assert(pre[j] == pf_obj || pre[j] == hz_obj || pre[j] == f1_obj || pre[j]
                    == f2_obj);
                assert(pre[i] != pre[j]);
            }
            assert(pairwise_disjoint(pre));
            assert(collisions@ == pre);
        }
    }
    // copy the resolved bodies back to their entities
    let objs = collisions.leaves();
    let ghost before_copy = *w;
    let mut i: usize = 0;
    #[verifier::loop_isolation(false)]
    while i < objs.len()
        invariant
            0 <= i <= objs.len(),
            objs@ == collisions@,
            objs_preserved(pre, objs@),
            forall|k: int| 0 <= k < objs@.len() ==> obj_ok(#[trigger] objs@[k]),
            pre.len() == 4,
            forall|k: int| 0 <= k < pre.len() ==> (#[trigger] pre[k] == pf_obj || pre[k] == hz_obj
                || pre[k] == f1_obj || pre[k] == f2_obj),
            w.fighter1.char_state.state == before_copy.fighter1.char_state.state,
            w.fighter1.char_state.current_frame == before_copy.fighter1.char_state.current_frame,
            w.fighter1.name == before_copy.fighter1.name,
            w.fighter2.char_state.state == before_copy.fighter2.char_state.state,
            w.fighter2.char_state.current_frame == before_copy.fighter2.char_state.current_frame,
            w.fighter2.name == before_copy.fighter2.name,
            w.platform == before_copy.platform,
            w.hazard.fell == before_copy.hazard.fell,
            w.hazard.sprite == before_copy.hazard.sprite,
            w.fighter1.char_state.particle.damping == f1_obj.particle.damping,
            w.fighter1.char_state.particle.inverse_mass == f1_obj.particle.inverse_mass,
            w.fighter1.char_state.particle.acceleration == f1_obj.particle.acceleration,
            w.fighter1.char_state.particle.force_accumulator
                == f1_obj.particle.force_accumulator,
            w.fighter2.char_state.particle.damping == f2_obj.particle.damping,
            w.fighter2.char_state.particle.inverse_mass == f2_obj.particle.inverse_mass,
            w.fighter2.char_state.particle.acceleration == f2_obj.particle.acceleration,
            w.fighter2.char_state.particle.force_accumulator
                == f2_obj.particle.force_accumulator,
            particle_in_range(w.fighter1.char_state.particle),
            particle_in_range(w.fighter2.char_state.particle),
            rect_wf(w.fighter1.char_state.sprite) || crate::collision::obj_ok(
                fighter_object(w.fighter1, FIGHTER1_ENT),
            ),
            -RECT_POS_MAX <= w.hazard.position.x <= RECT_POS_MAX,
            -RECT_POS_MAX <= w.hazard.position.y <= RECT_POS_MAX,
            before_copy.fighter1 == f1m,
            before_copy.fighter2 == f2m,
            before_copy.hazard == w0.hazard,
            before_copy.platform == w0.platform,
            objs@ == pre ==> (w.fighter1 == f1m && w.fighter2 == f2m && w.hazard == w0.hazard),
        decreases objs.len() - i,
    {
        let o = objs[i];
        proof {
            assert(obj_preserved(pre[i as int], objs@[i as int]));
        }
        if o.ent == FIGHTER1_ENT {
            proof {
                assert(pre[i as int] == f1_obj);
            }
            w.fighter1.char_state.particle = o.particle;
            w.fighter1.char_state.sprite = o.rect;
        } else if o.ent == FIGHTER2_ENT {
            proof {
                assert(pre[i as int] == f2_obj);
            }
            w.fighter2.char_state.particle = o.particle;
            w.fighter2.char_state.sprite = o.rect;
        } else if o.ent == HAZARD_ENT {
            proof {
                assert(pre[i as int] == hz_obj);
            }
            w.hazard.position = Point::new(o.rect.x(), o.rect.y());
        }
        i = i + 1;
    }
    // the hazard's scripted fall and respawn
    w.hazard.step();
    // the tick's authoritative snapshot
    let snap = GameState::new(&w.fighter1, &w.fighter2);
    proof {
        assert(snap == snapshot_spec(w.fighter1, w.fighter2));
    }
    snap
}

/// Smoothing-buffer depth the client starts with.
pub const BUFFER_DEPTH: usize = 6;

/// A fighter's state after one snapshot is applied to it: the wire
/// state, frame and position become authoritative; everything else is
/// kept.
pub open spec fn applied_char(c: CharacterState, s: State, frame: i32, pos: Point) -> CharacterState {
    CharacterState {
        state: s,
        current_frame: frame,
        particle: Particle {
            position: PhysVec { x: (pos.x * 1000) as i64, y: (pos.y * 1000) as i64 },
            ..c.particle
        },
        ..c
    }
}

/// The client's rendered fighters and its snapshot smoothing buffer, a
/// bounded first-in first-out queue that decouples network jitter from
/// the fixed render cadence.
pub struct ClientState {
    pub fighter1: Fighter,
    pub fighter2: Fighter,
    pub buffer: Vec<GameState>,
}

impl ClientState {
    /// A fresh client: the fighters in their starting poses and the
    /// buffer primed with copies of their starting snapshot.
    pub fn new() -> (r: ClientState)
        ensures
            r.buffer@.len() == BUFFER_DEPTH,
            forall|i: int| 0 <= i < r.buffer@.len() ==> r.buffer@[i] == snapshot_spec(
                r.fighter1,
                r.fighter2,
            ),
            r.fighter1.name == crate::characters::Characters::Python,
            r.fighter2.name == crate::characters::Characters::Java,
    {
        let c1 = CharacterState::new();
        let fighter1 = Fighter::new(c1);
        let mut c2 = CharacterState::new();
        c2.particle.position.replace(&PhysVec::new(300_000, 0));
        let mut fighter2 = Fighter::new(c2);
        fighter2.name = crate::characters::Characters::Java;
        let initial = GameState::new(&fighter1, &fighter2);
        proof {
            assert(initial == snapshot_spec(fighter1, fighter2));
        }
        let mut buffer: Vec<GameState> = Vec::new();
        let mut i: usize = 0;
        #[verifier::loop_isolation(false)]
        while i < BUFFER_DEPTH
            invariant
                0 <= i <= BUFFER_DEPTH,
                buffer@.len() == i,
                forall|k: int| 0 <= k < i ==> buffer@[k] == initial,
            decreases BUFFER_DEPTH - i,
        {
            buffer.push(initial);
            i = i + 1;
        }
        ClientState { fighter1, fighter2, buffer }
    }

    /// Applies one snapshot to the rendered fighters.
    pub fn apply_snapshot(&mut self, s: &GameState)
        ensures
            final(self).fighter1.char_state == applied_char(
                old(self).fighter1.char_state,
                s.p1_state,
                s.p1_frame,
                s.p1_position,
            ),
            final(self).fighter2.char_state == applied_char(
                old(self).fighter2.char_state,
                s.p2_state,
                s.p2_frame,
                s.p2_position,
            ),
            final(self).fighter1.name == old(self).fighter1.name,
            final(self).fighter2.name == old(self).fighter2.name,
            final(self).buffer == old(self).buffer,
    {
        self.fighter1.char_state.state = s.p1_state;
        self.fighter1.char_state.current_frame = s.p1_frame;
        self.fighter1.char_state.particle.position.x = (s.p1_position.x as i64) * 1000;
        self.fighter1.char_state.particle.position.y = (s.p1_position.y as i64) * 1000;
        self.fighter2.char_state.state = s.p2_state;
        self.fighter2.char_state.current_frame = s.p2_frame;
        self.fighter2.char_state.particle.position.x = (s.p2_position.x as i64) * 1000;
        self.fighter2.char_state.particle.position.y = (s.p2_position.y as i64) * 1000;
    }

    /// One client step: the front snapshot leaves the buffer and becomes
    /// the authoritative render state, and a snapshot received this tick,
    /// if any, joins the back of the buffer.
    pub fn client_tick(&mut self, received: Option<GameState>) -> (applied: GameState)
        requires
            old(self).buffer@.len() >= 1,
            old(self).buffer@.len() < 1000,
        ensures
            applied == old(self).buffer@[0],
            final(self).buffer@ == old(self).buffer@.subrange(
                1,
                old(self).buffer@.len() as int,
            ) + (match received {
                Some(s) => seq![s],
                None => Seq::<GameState>::empty(),
            }),
            final(self).fighter1.char_state == applied_char(
                old(self).fighter1.char_state,
                applied.p1_state,
                applied.p1_frame,
                applied.p1_position,
            ),
            final(self).fighter2.char_state == applied_char(
                old(self).fighter2.char_state,
                applied.p2_state,
                applied.p2_frame,
                applied.p2_position,
            ),
    {
        let applied = self.buffer.remove(0);
        self.apply_snapshot(&applied);
        match received {
            Some(s) => {
                self.buffer.push(s);
                proof {
                    assert(self.buffer@ =~= old(self).buffer@.subrange(
                        1,
                        old(self).buffer@.len() as int,
                    ) + seq![s]);
                }
            },
            None => {
                proof {
                    assert(self.buffer@ =~= old(self).buffer@.subrange(
                        1,
                        old(self).buffer@.len() as int,
                    ) + Seq::<GameState>::empty());
                }
            },
        }
        applied
    }
}

} // verus!
