//! Collision objects and their pairwise narrow-phase resolution.
//!
//! A collision object couples an entity's bounding rectangle with its
//! particle.  An overlapping pair is separated along the axis of least
//! penetration by the minimum translation distance, split between the two
//! in proportion to their inverse masses; a body of inverse mass zero
//! never moves.  Each moved body also has its velocity component along
//! the separation axis zeroed, and its particle position shifted together
//! with its rectangle.

use vstd::prelude::*;
use crate::fixed::{clamp_i64, clamp_spec, SIM_MAX};
use crate::geom::{
    bottom, contains, left, overlap, rect_area, rect_union, rect_wf, rects_overlap, right, top,
    Rect,
};
use crate::particle::{particle_in_range, particle_wf, Particle};
use crate::vecmath::PhysVec;

verus! {

/// Coordinate clamp for rectangles run through resolution.
pub const RECT_POS_MAX: i32 = 1_000_000_000;

/// Largest rectangle dimension resolution accepts.
pub const RECT_DIM_MAX: u32 = 200_000_000;

/// The kinds of collidable objects.
#[derive(Clone, Copy, Debug, PartialEq, Eq, Structural)]
pub enum CollisionObjectType {
    Fighter,
    Hazard,
    Platform,
}

/// One collidable body: its kind, the entity slot it stands for, its
/// bounding rectangle and its particle.
#[derive(Clone, Copy, Debug, PartialEq, Eq, Structural)]
pub struct CollisionObject {
    pub kind: CollisionObjectType,
    pub ent: usize,
    pub rect: Rect,
    pub particle: Particle,
}

/// A body the resolver accepts: bounded rectangle, well-formed particle.
pub open spec fn obj_ok(o: CollisionObject) -> bool {
    &&& -RECT_POS_MAX <= o.rect.x <= RECT_POS_MAX
    &&& -RECT_POS_MAX <= o.rect.y <= RECT_POS_MAX
    &&& o.rect.w <= RECT_DIM_MAX
    &&& o.rect.h <= RECT_DIM_MAX
    &&& particle_wf(o.particle)
    &&& particle_in_range(o.particle)
}

impl CollisionObject {
    pub fn new_from(kind: CollisionObjectType, ent: usize, rect: Rect, particle: Particle) -> (r:
        CollisionObject)
        ensures
            r == (CollisionObject { kind, ent, rect, particle }),
    {
        CollisionObject { kind, ent, rect, particle }
    }
}

/// `o` displaced horizontally by `d` whole units: rectangle and particle
/// position move together (each clamped into its machine range) and the
/// horizontal velocity is zeroed; an immovable body stays put.
pub open spec fn moved_x(o: CollisionObject, d: int) -> CollisionObject {
    if o.particle.inverse_mass == 0 {
        o
    } else {
        CollisionObject {
            rect: Rect {
                x: clamp_spec(o.rect.x + d, -RECT_POS_MAX as int, RECT_POS_MAX as int) as i32,
                ..o.rect
            },
            particle: Particle {
                position: PhysVec {
                    x: clamp_spec(
                        o.particle.position.x + d * 1000,
                        -SIM_MAX as int,
                        SIM_MAX as int,
                    ) as i64,
                    ..o.particle.position
                },
                velocity: PhysVec { x: 0i64, ..o.particle.velocity },
                ..o.particle
            },
            ..o
        }
    }
}

/// `o` displaced vertically by `d` whole units, as [`moved_x`].
pub open spec fn moved_y(o: CollisionObject, d: int) -> CollisionObject {
    if o.particle.inverse_mass == 0 {
        o
    } else {
        CollisionObject {
            rect: Rect {
                y: clamp_spec(o.rect.y + d, -RECT_POS_MAX as int, RECT_POS_MAX as int) as i32,
                ..o.rect
            },
            particle: Particle {
                position: PhysVec {
                    y: clamp_spec(
                        o.particle.position.y + d * 1000,
                        -SIM_MAX as int,
                        SIM_MAX as int,
                    ) as i64,
                    ..o.particle.position
                },
                velocity: PhysVec { y: 0i64, ..o.particle.velocity },
                ..o.particle
            },
            ..o
        }
    }
}

/// The result of resolving one pair: a non-overlapping or static-static
/// pair is unchanged; otherwise the minimum translation distance along
/// the axis of least penetration is split in proportion to the inverse
/// masses and the two bodies are pushed apart along that axis.
pub open spec fn pair_resolution(a: CollisionObject, b: CollisionObject) -> (CollisionObject,
    CollisionObject) {
    if !overlap(a.rect, b.rect) || (a.particle.inverse_mass == 0 && b.particle.inverse_mass == 0) {
        (a, b)
    } else {
        let px1 = right(a.rect) - left(b.rect);
        let px2 = right(b.rect) - left(a.rect);
        let py1 = bottom(a.rect) - top(b.rect);
        let py2 = bottom(b.rect) - top(a.rect);
        let dx = if px1 <= px2 { px1 } else { px2 };
        let dy = if py1 <= py2 { py1 } else { py2 };
        let total = a.particle.inverse_mass + b.particle.inverse_mass;
        if dx <= dy {
            let mv_a = dx * a.particle.inverse_mass / total;
            let mv_b = dx - mv_a;
            if px1 <= px2 {
                (moved_x(a, -mv_a), moved_x(b, mv_b))
            } else {
                (moved_x(a, mv_a), moved_x(b, -mv_b))
            }
        } else {
            let mv_a = dy * a.particle.inverse_mass / total;
            let mv_b = dy - mv_a;
            if py1 <= py2 {
                (moved_y(a, -mv_a), moved_y(b, mv_b))
            } else {
                (moved_y(a, mv_a), moved_y(b, -mv_b))
            }
        }
    }
}

/// Applies a horizontal displacement to a dynamic body.
fn apply_move_x(o: &mut CollisionObject, d: i64)
    requires
        obj_ok(*old(o)),
        -3_000_000_000 <= d <= 3_000_000_000,
    ensures
        *final(o) == moved_x(*old(o), d as int),
        obj_ok(*final(o)),
{
    if o.particle.inverse_mass == 0 {
        return;
    }
    let nx: i64 = clamp_i64((o.rect.x as i64) + d, -(RECT_POS_MAX as i64), RECT_POS_MAX as i64);
    o.rect.x = nx as i32;
    let np: i64 = clamp_i64(o.particle.position.x + d * 1000, -SIM_MAX, SIM_MAX);
    o.particle.position.x = np;
    o.particle.velocity.x = 0;
}

/// Applies a vertical displacement to a dynamic body.
fn apply_move_y(o: &mut CollisionObject, d: i64)
    requires
        obj_ok(*old(o)),
        -3_000_000_000 <= d <= 3_000_000_000,
    ensures
        *final(o) == moved_y(*old(o), d as int),
        obj_ok(*final(o)),
{
    if o.particle.inverse_mass == 0 {
        return;
    }
    let ny: i64 = clamp_i64((o.rect.y as i64) + d, -(RECT_POS_MAX as i64), RECT_POS_MAX as i64);
    o.rect.y = ny as i32;
    let np: i64 = clamp_i64(o.particle.position.y + d * 1000, -SIM_MAX, SIM_MAX);
    o.particle.position.y = np;
    o.particle.velocity.y = 0;
}

/// Narrow phase: separates one overlapping pair as [`pair_resolution`]
/// describes.
pub fn resolve_pair(a: &mut CollisionObject, b: &mut CollisionObject)
    requires
        obj_ok(*old(a)),
        obj_ok(*old(b)),
    ensures
        *final(a) == pair_resolution(*old(a), *old(b)).0,
        *final(b) == pair_resolution(*old(a), *old(b)).1,
        obj_ok(*final(a)),
        obj_ok(*final(b)),
{
    if !rects_overlap(&a.rect, &b.rect) {
        return;
    }
    if a.particle.inverse_mass == 0 && b.particle.inverse_mass == 0 {
        return;
    }
    let px1: i64 = (a.rect.x as i64) + (a.rect.w as i64) - (b.rect.x as i64);
    let px2: i64 = (b.rect.x as i64) + (b.rect.w as i64) - (a.rect.x as i64);
    let py1: i64 = (a.rect.y as i64) + (a.rect.h as i64) - (b.rect.y as i64);
    let py2: i64 = (b.rect.y as i64) + (b.rect.h as i64) - (a.rect.y as i64);
    let dx: i64 = if px1 <= px2 { px1 } else { px2 };
    let dy: i64 = if py1 <= py2 { py1 } else { py2 };
    let im_a: i64 = a.particle.inverse_mass;
    let total: i64 = im_a + b.particle.inverse_mass;
    if dx <= dy {
        proof {
            lemma_move_share_bounds(dx as int, im_a as int, total as int);
        }
        let mv_a: i64 = (((dx as u64) * (im_a as u64)) / (total as u64)) as i64;
        let mv_b: i64 = dx - mv_a;
        if px1 <= px2 {
            apply_move_x(a, -mv_a);
            apply_move_x(b, mv_b);
        } else {
            apply_move_x(a, mv_a);
            apply_move_x(b, -mv_b);
        }
    } else {
        proof {
            lemma_move_share_bounds(dy as int, im_a as int, total as int);
        }
        let mv_a: i64 = (((dy as u64) * (im_a as u64)) / (total as u64)) as i64;
        let mv_b: i64 = dy - mv_a;
        if py1 <= py2 {
            apply_move_y(a, -mv_a);
            apply_move_y(b, mv_b);
        } else {
            apply_move_y(a, mv_a);
            apply_move_y(b, -mv_b);
        }
    }
}

/// The share of the translation distance given to one body lies between
/// zero and the whole distance.
proof fn lemma_move_share_bounds(d: int, im: int, total: int)
    requires
        0 <= d <= 3_000_000_000,
        0 <= im <= total,
        0 < total <= 2_000_000,
    ensures
        0 <= d * im / total <= d,
        d * im <= 3_000_000_000 * 2_000_000,
        im == 0 ==> d * im / total == 0,
{
    assert(0 <= d * im <= d * total && d * total <= 3_000_000_000 * 2_000_000)
        by (nonlinear_arith)
        requires
            0 <= d <= 3_000_000_000 && 0 <= im <= total && 0 < total <= 2_000_000,
    ;
    vstd::arithmetic::div_mod::lemma_div_pos_is_pos(d * im, total);
    vstd::arithmetic::div_mod::lemma_div_is_ordered(d * im, d * total, total);
    vstd::arithmetic::div_mod::lemma_div_multiples_vanish(d, total);
    assert(total * d == d * total) by (nonlinear_arith);
    if im == 0 {
        assert(d * 0 == 0) by (nonlinear_arith);
        vstd::arithmetic::div_mod::lemma_div_of0(total);
    }
}

/// Law: resolving an overlapping pair with at least one dynamic body
/// separates the two rectangles by exactly the minimum translation
/// distance along the axis of least penetration, leaving them touching
/// but no longer overlapping and the other axis untouched; a body of
/// inverse mass zero comes out exactly as it went in.
pub proof fn lemma_pair_separation(a: CollisionObject, b: CollisionObject)
    requires
        obj_ok(a),
        obj_ok(b),
        rect_wf(a.rect),
        rect_wf(b.rect),
        overlap(a.rect, b.rect),
        a.particle.inverse_mass + b.particle.inverse_mass > 0,
    ensures
        !overlap(pair_resolution(a, b).0.rect, pair_resolution(a, b).1.rect),
        a.particle.inverse_mass == 0 ==> pair_resolution(a, b).0 == a,
        b.particle.inverse_mass == 0 ==> pair_resolution(a, b).1 == b,
        ({
            let px = if right(a.rect) - left(b.rect) <= right(b.rect) - left(a.rect) {
                right(a.rect) - left(b.rect)
            } else {
                right(b.rect) - left(a.rect)
            };
            let py = if bottom(a.rect) - top(b.rect) <= bottom(b.rect) - top(a.rect) {
                bottom(a.rect) - top(b.rect)
            } else {
                bottom(b.rect) - top(a.rect)
            };
            let ra = pair_resolution(a, b).0.rect;
            let rb = pair_resolution(a, b).1.rect;
            if px <= py {
                // separation along x: touching edges, y untouched
                &&& (right(ra) == left(rb) || right(rb) == left(ra))
                &&& top(ra) == top(a.rect)
                &&& top(rb) == top(b.rect)
            } else {
                // separation along y: touching edges, x untouched
                &&& (bottom(ra) == top(rb) || bottom(rb) == top(ra))
                &&& left(ra) == left(a.rect)
                &&& left(rb) == left(b.rect)
            }
        }),
{
    let px1 = right(a.rect) - left(b.rect);
    let px2 = right(b.rect) - left(a.rect);
    let py1 = bottom(a.rect) - top(b.rect);
    let py2 = bottom(b.rect) - top(a.rect);
    let dx = if px1 <= px2 { px1 } else { px2 };
    let dy = if py1 <= py2 { py1 } else { py2 };
    let im_a = a.particle.inverse_mass as int;
    let im_b = b.particle.inverse_mass as int;
    let total = im_a + im_b;
    assert(0 < px1 <= 200_000_000 && 0 < px2 <= 200_000_000);
    assert(0 < py1 <= 200_000_000 && 0 < py2 <= 200_000_000);
    assert(0 < dx <= 200_000_000);
    assert(0 < dy <= 200_000_000);
    if dx <= dy {
        let mv_a = dx * im_a / total;
        let mv_b = dx - mv_a;
        lemma_move_share_bounds(dx, im_a, total);
        if im_b == 0 {
            assert(im_a == total);
            assert(dx * im_a / total == dx) by {
                vstd::arithmetic::div_mod::lemma_div_multiples_vanish(dx, total);
                assert(dx * total == total * dx) by (nonlinear_arith);
            }
        }
    } else {
        let mv_a = dy * im_a / total;
        let mv_b = dy - mv_a;
        lemma_move_share_bounds(dy, im_a, total);
        if im_b == 0 {
            assert(im_a == total);
            assert(dy * im_a / total == dy) by {
                vstd::arithmetic::div_mod::lemma_div_multiples_vanish(dy, total);
                assert(dy * total == total * dy) by (nonlinear_arith);
            }
        }
    }
}

/// What pairwise resolution may never change about a body: its identity,
/// its dimensions and its mass; an immovable body changes in no way at
/// all.
pub open spec fn obj_preserved(o1: CollisionObject, o2: CollisionObject) -> bool {
    &&& o2.kind == o1.kind
    &&& o2.ent == o1.ent
    &&& o2.rect.w == o1.rect.w
    &&& o2.rect.h == o1.rect.h
    &&& o2.particle.inverse_mass == o1.particle.inverse_mass
    &&& o2.particle.damping == o1.particle.damping
    &&& o2.particle.acceleration == o1.particle.acceleration
    &&& o2.particle.force_accumulator == o1.particle.force_accumulator
    &&& (o1.particle.inverse_mass == 0 ==> o2 == o1)
}

/// Pointwise preservation of a whole object list.
pub open spec fn objs_preserved(s1: Seq<CollisionObject>, s2: Seq<CollisionObject>) -> bool {
    &&& s2.len() == s1.len()
    &&& forall|i: int| 0 <= i < s1.len() ==> obj_preserved(s1[i], s2[i])
}

proof fn lemma_preserved_refl(s: Seq<CollisionObject>)
    ensures
        objs_preserved(s, s),
{
}

proof fn lemma_preserved_trans(
    s1: Seq<CollisionObject>,
    s2: Seq<CollisionObject>,
    s3: Seq<CollisionObject>,
)
    requires
        objs_preserved(s1, s2),
        objs_preserved(s2, s3),
    ensures
        objs_preserved(s1, s3),
{
    assert forall|i: int| 0 <= i < s1.len() implies obj_preserved(s1[i], s3[i]) by {
        assert(obj_preserved(s1[i], s2[i]));
        assert(obj_preserved(s2[i], s3[i]));
    }
}

proof fn lemma_preserved_concat(
    a1: Seq<CollisionObject>,
    a2: Seq<CollisionObject>,
    b1: Seq<CollisionObject>,
    b2: Seq<CollisionObject>,
)
    requires
        objs_preserved(a1, a2),
        objs_preserved(b1, b2),
    ensures
        objs_preserved(a1 + b1, a2 + b2),
{
    assert forall|i: int| 0 <= i < (a1 + b1).len() implies obj_preserved(
        (a1 + b1)[i],
        (a2 + b2)[i],
    ) by {
        if i < a1.len() {
            assert(obj_preserved(a1[i], a2[i]));
        } else {
            assert(obj_preserved(b1[i - a1.len()], b2[i - a1.len()]));
        }
    }
}

/// Pairwise resolution preserves identity, dimensions and mass, and
/// leaves an immovable body untouched.
proof fn lemma_pair_preserved(a: CollisionObject, b: CollisionObject)
    ensures
        obj_preserved(a, pair_resolution(a, b).0),
        obj_preserved(b, pair_resolution(a, b).1),
{
}

/// The bounding-volume tree: a leaf holds one body; an inner node holds
/// the volume enclosing everything below it.
pub enum BvhTree {
    Leaf(CollisionObject),
    Node { volume: Rect, left: Box<BvhTree>, right: Box<BvhTree> },
}

/// The bodies at the leaves, left to right.
pub open spec fn objects(t: BvhTree) -> Seq<CollisionObject>
    decreases t,
{
    match t {
        BvhTree::Leaf(o) => seq![o],
        BvhTree::Node { volume, left, right } => objects(*left) + objects(*right),
    }
}

/// The volume a subtree presents to the broad phase.
pub open spec fn volume_of(t: BvhTree) -> Rect {
    match t {
        BvhTree::Leaf(o) => o.rect,
        BvhTree::Node { volume, left, right } => volume,
    }
}

/// Every body of the subtree is acceptable to the resolver.
pub open spec fn objs_ok(t: BvhTree) -> bool
    decreases t,
{
    match t {
        BvhTree::Leaf(o) => obj_ok(o),
        BvhTree::Node { volume, left, right } => objs_ok(*left) && objs_ok(*right),
    }
}

/// Structural invariant of a freshly built tree: bounded bodies, and
/// every node's volume containing its children's volumes (hence, every
/// leaf's rectangle lying within all its ancestors' volumes).
pub open spec fn tree_wf(t: BvhTree) -> bool
    decreases t,
{
    match t {
        BvhTree::Leaf(o) => obj_ok(o) && rect_wf(o.rect),
        BvhTree::Node { volume, left, right } => {
            &&& rect_wf(volume)
            &&& contains(volume, volume_of(*left))
            &&& contains(volume, volume_of(*right))
            &&& tree_wf(*left)
            &&& tree_wf(*right)
        },
    }
}

/// Number of nodes, for termination of pairwise traversals.
pub open spec fn size(t: BvhTree) -> nat
    decreases t,
{
    match t {
        BvhTree::Leaf(o) => 1,
        BvhTree::Node { volume, left, right } => 1 + size(*left) + size(*right),
    }
}

proof fn lemma_objects_len(t: BvhTree)
    ensures
        objects(t).len() >= 1,
    decreases t,
{
    match t {
        BvhTree::Leaf(o) => {},
        BvhTree::Node { volume, left, right } => {
            lemma_objects_len(*left);
            lemma_objects_len(*right);
        },
    }
}

proof fn lemma_wf_volume(t: BvhTree)
    requires
        tree_wf(t),
    ensures
        rect_wf(volume_of(t)),
{
    match t {
        BvhTree::Leaf(o) => {},
        BvhTree::Node { volume, left, right } => {},
    }
}

/// A bounded rectangle's area stays far within the machine range.
proof fn lemma_area_bound(r: Rect)
    requires
        rect_wf(r),
    ensures
        r.w * r.h <= 40_000_000_000_000_000,
{
    assert(r.w * r.h <= 200_000_000 * 200_000_000) by (nonlinear_arith)
        requires
            0 <= r.w <= 200_000_000 && 0 <= r.h <= 200_000_000,
    ;
}

/// The subtree's broad-phase volume.
fn volume_rect(t: &BvhTree) -> (r: Rect)
    ensures
        r == volume_of(*t),
{
    match t {
        BvhTree::Leaf(o) => o.rect,
        BvhTree::Node { volume, left, right } => *volume,
    }
}

fn is_leaf(t: &BvhTree) -> (r: bool)
    ensures
        r == (t matches BvhTree::Leaf(_)),
{
    match t {
        BvhTree::Leaf(o) => true,
        BvhTree::Node { volume, left, right } => false,
    }
}

/// Inserts a body: descends toward the child whose volume would grow
/// least (by area), turns the reached leaf into a node over the old leaf
/// and the new one, and grows every volume on the path to enclose the
/// new rectangle.
fn insert_node(t: &mut BvhTree, obj: CollisionObject)
    requires
        tree_wf(*old(t)),
        obj_ok(obj),
        rect_wf(obj.rect),
    ensures
        tree_wf(*final(t)),
        objects(*final(t)).to_multiset() == objects(*old(t)).to_multiset().insert(obj),
        objects(*final(t)).len() == objects(*old(t)).len() + 1,
        left(volume_of(*final(t))) == if left(volume_of(*old(t))) <= left(obj.rect) {
            left(volume_of(*old(t)))
        } else {
            left(obj.rect)
        },
        top(volume_of(*final(t))) == if top(volume_of(*old(t))) <= top(obj.rect) {
            top(volume_of(*old(t)))
        } else {
            top(obj.rect)
        },
        right(volume_of(*final(t))) == if right(volume_of(*old(t))) >= right(obj.rect) {
            right(volume_of(*old(t)))
        } else {
            right(obj.rect)
        },
        bottom(volume_of(*final(t))) == if bottom(volume_of(*old(t))) >= bottom(obj.rect) {
            bottom(volume_of(*old(t)))
        } else {
            bottom(obj.rect)
        },
    decreases *old(t),
{
    broadcast use vstd::seq_lib::group_to_multiset_ensures;
    broadcast use vstd::multiset::group_multiset_axioms;

    if is_leaf(t) {
        match &*t {
            BvhTree::Leaf(o) => {
                let o: CollisionObject = *o;
                let volume = rect_union(&o.rect, &obj.rect);
                *t = BvhTree::Node {
                    volume,
                    left: Box::new(BvhTree::Leaf(o)),
                    right: Box::new(BvhTree::Leaf(obj)),
                };
                proof {
                    let s = seq![o] + seq![obj];
                    assert(objects(BvhTree::Leaf(o)) =~= seq![o]);
                    assert(objects(BvhTree::Leaf(obj)) =~= seq![obj]);
                    assert(objects(*t) =~= s);
                    assert(tree_wf(BvhTree::Leaf(o)));
                    assert(tree_wf(BvhTree::Leaf(obj)));
                    assert(tree_wf(*t));
                    vstd::seq_lib::lemma_multiset_commutative(seq![o], seq![obj]);
                    assert(seq![obj] =~= Seq::<CollisionObject>::empty().push(obj));
                    assert(seq![o].to_multiset().add(seq![obj].to_multiset())
                        =~= seq![o].to_multiset().insert(obj));
                }
            },
            BvhTree::Node { volume, left, right } => {
                proof {
                    assert(false);
                }
            },
        }
        return;
    }
    match &mut *t {
        BvhTree::Node { volume, left, right } => {
            proof {
                lemma_wf_volume(**left);
                lemma_wf_volume(**right);
            }
            let vl = volume_rect(left);
            let vr = volume_rect(right);
            let grown_l = rect_union(&vl, &obj.rect);
            let grown_r = rect_union(&vr, &obj.rect);
            proof {
                lemma_area_bound(vl);
                lemma_area_bound(vr);
                lemma_area_bound(grown_l);
                lemma_area_bound(grown_r);
            }
            // growth_left <= growth_right, written without subtraction
            let pick_left = rect_area(&grown_l) + rect_area(&vr) <= rect_area(&grown_r)
                + rect_area(&vl);
            let ghost old_left = **left;
            let ghost old_right = **right;
            if pick_left {
                insert_node(left, obj);
            } else {
                insert_node(right, obj);
            }
            let new_volume = rect_union(volume, &obj.rect);
            *volume = new_volume;
            proof {
                if pick_left {
                    vstd::seq_lib::lemma_multiset_commutative(objects(old_left), objects(old_right));
                    vstd::seq_lib::lemma_multiset_commutative(objects(**left), objects(old_right));
                } else {
                    vstd::seq_lib::lemma_multiset_commutative(objects(old_left), objects(old_right));
                    vstd::seq_lib::lemma_multiset_commutative(objects(old_left), objects(**right));
                }
            }
        },
        BvhTree::Leaf(o) => {
            proof {
                assert(false);
            }
        },
    }
}

/// A subtree holding exactly one body is a leaf holding that body.
proof fn lemma_single(t: BvhTree)
    requires
        objects(t).len() == 1,
    ensures
        t == BvhTree::Leaf(objects(t)[0]),
{
    match t {
        BvhTree::Leaf(o) => {
            assert(objects(t) =~= seq![o]);
        },
        BvhTree::Node { volume, left, right } => {
            lemma_objects_len(*left);
            lemma_objects_len(*right);
        },
    }
}

/// A freshly built tree's bodies are all acceptable to the resolver.
pub proof fn lemma_wf_objs_ok(t: BvhTree)
    requires
        tree_wf(t),
    ensures
        objs_ok(t),
    decreases t,
{
    match t {
        BvhTree::Leaf(o) => {},
        BvhTree::Node { volume, left, right } => {
            lemma_wf_objs_ok(*left);
            lemma_wf_objs_ok(*right);
        },
    }
}

/// No body of the first list touches any body of the second.
pub open spec fn cross_disjoint(s1: Seq<CollisionObject>, s2: Seq<CollisionObject>) -> bool {
    forall|i: int, j: int|
        0 <= i < s1.len() && 0 <= j < s2.len() ==> !overlap(s1[i].rect, s2[j].rect)
}

/// No two bodies of the list touch.
pub open spec fn pairwise_disjoint(s: Seq<CollisionObject>) -> bool {
    forall|i: int, j: int| 0 <= i < j < s.len() ==> !overlap(s[i].rect, s[j].rect)
}

proof fn lemma_disjoint_split(a: Seq<CollisionObject>, b: Seq<CollisionObject>)
    requires
        pairwise_disjoint(a + b),
    ensures
        pairwise_disjoint(a),
        pairwise_disjoint(b),
        cross_disjoint(a, b),
{
    assert forall|i: int, j: int| 0 <= i < j < a.len() implies !overlap(a[i].rect, a[j].rect) by {
        assert((a + b)[i] == a[i] && (a + b)[j] == a[j]);
    }
    assert forall|i: int, j: int| 0 <= i < j < b.len() implies !overlap(b[i].rect, b[j].rect) by {
        assert((a + b)[a.len() + i] == b[i] && (a + b)[a.len() + j] == b[j]);
    }
    assert forall|i: int, j: int| 0 <= i < a.len() && 0 <= j < b.len() implies !overlap(
        a[i].rect,
        b[j].rect,
    ) by {
        assert((a + b)[i] == a[i] && (a + b)[a.len() + j] == b[j]);
    }
}

/// Every body of a subtree whose bodies are all acceptable is acceptable.
pub proof fn lemma_objs_ok_all(t: BvhTree)
    requires
        objs_ok(t),
    ensures
        forall|i: int| 0 <= i < objects(t).len() ==> obj_ok(#[trigger] objects(t)[i]),
    decreases t,
{
    match t {
        BvhTree::Leaf(o) => {},
        BvhTree::Node { volume, left, right } => {
            lemma_objs_ok_all(*left);
            lemma_objs_ok_all(*right);
            assert forall|i: int| 0 <= i < objects(t).len() implies obj_ok(
                #[trigger] objects(t)[i],
            ) by {
                if i < objects(*left).len() {
                    assert(objects(t)[i] == objects(*left)[i]);
                } else {
                    assert(objects(t)[i] == objects(*right)[i - objects(*left).len()]);
                }
            }
        },
    }
}

/// Resolves every broad-phase candidate pair between the two subtrees.
fn resolve_cross(x: &mut BvhTree, y: &mut BvhTree)
    requires
        objs_ok(*old(x)),
        objs_ok(*old(y)),
    ensures
        objs_ok(*final(x)),
        objs_ok(*final(y)),
        size(*final(x)) == size(*old(x)),
        size(*final(y)) == size(*old(y)),
        objs_preserved(objects(*old(x)), objects(*final(x))),
        objs_preserved(objects(*old(y)), objects(*final(y))),
        (objects(*old(x)).len() == 1 && objects(*old(y)).len() == 1) ==> ({
            let pr = pair_resolution(objects(*old(x))[0], objects(*old(y))[0]);
            objects(*final(x)) == seq![pr.0] && objects(*final(y)) == seq![pr.1]
        }),
        cross_disjoint(objects(*old(x)), objects(*old(y))) ==> objects(*final(x)) == objects(
            *old(x),
        ) && objects(*final(y)) == objects(*old(y)),
    decreases size(*old(x)) + size(*old(y)),
{
    let vx = volume_rect(x);
    let vy = volume_rect(y);
    if !rects_overlap(&vx, &vy) {
        proof {
            lemma_preserved_refl(objects(*x));
            lemma_preserved_refl(objects(*y));
            if objects(*x).len() == 1 && objects(*y).len() == 1 {
                lemma_single(*x);
                lemma_single(*y);
            }
        }
        return;
    }
    if is_leaf(x) {
        if is_leaf(y) {
            match &mut *x {
                BvhTree::Leaf(a) => {
                    match &mut *y {
                        BvhTree::Leaf(b) => {
                            proof {
                                lemma_pair_preserved(*a, *b);
                            }
                            resolve_pair(a, b);
                        },
                        BvhTree::Node { volume, left, right } => {
                            proof {
                                assert(false);
                            }
                        },
                    }
                },
                BvhTree::Node { volume, left, right } => {
                    proof {
                        assert(false);
                    }
                },
            }
            return;
        }
        match &mut *y {
            BvhTree::Node { volume, left, right } => {
                proof {
                    lemma_objects_len(**left);
                    lemma_objects_len(**right);
                }
                let ghost x0 = objects(*x);
                let ghost l0 = objects(**left);
                let ghost r0 = objects(**right);
                resolve_cross(x, left);
                let ghost x1 = objects(*x);
                let ghost l1 = objects(**left);
                resolve_cross(x, right);
                proof {
                    lemma_preserved_trans(x0, x1, objects(*x));
                    lemma_preserved_refl(objects(**right));
                    lemma_preserved_concat(l0, l1, r0, objects(**right));
                    if cross_disjoint(x0, l0 + r0) {
                        assert forall|i: int, j: int|
                            0 <= i < x0.len() && 0 <= j < l0.len() implies !overlap(
                            x0[i].rect,
                            l0[j].rect,
                        ) by {
                            assert((l0 + r0)[j] == l0[j]);
                        }
                        assert forall|i: int, j: int|
                            0 <= i < x0.len() && 0 <= j < r0.len() implies !overlap(
                            x0[i].rect,
                            r0[j].rect,
                        ) by {
                            assert((l0 + r0)[l0.len() + j] == r0[j]);
                        }
                        assert(objects(*y) =~= l0 + r0);
                    }
                }
            },
            BvhTree::Leaf(o) => {
                proof {
                    assert(false);
                }
            },
        }
        return;
    }
    match &mut *x {
        BvhTree::Node { volume, left, right } => {
            proof {
                lemma_objects_len(**left);
                lemma_objects_len(**right);
            }
            let ghost y0 = objects(*y);
            let ghost l0 = objects(**left);
            let ghost r0 = objects(**right);
            resolve_cross(left, y);
            let ghost y1 = objects(*y);
            let ghost l1 = objects(**left);
            resolve_cross(right, y);
            proof {
                lemma_preserved_trans(y0, y1, objects(*y));
                lemma_preserved_concat(l0, l1, r0, objects(**right));
                if cross_disjoint(l0 + r0, y0) {
                    assert forall|i: int, j: int| 0 <= i < l0.len() && 0 <= j < y0.len() implies
                        !overlap(l0[i].rect, y0[j].rect) by {
                        assert((l0 + r0)[i] == l0[i]);
                    }
                    assert forall|i: int, j: int| 0 <= i < r0.len() && 0 <= j < y0.len() implies
                        !overlap(r0[i].rect, y0[j].rect) by {
                        assert((l0 + r0)[l0.len() + i] == r0[i]);
                    }
                    assert(objects(*x) =~= l0 + r0);
                }
            }
        },
        BvhTree::Leaf(o) => {
            proof {
                assert(false);
            }
        },
    }
}

/// Resolves every candidate pair inside the subtree: both halves first,
/// then the pairs across them.
fn resolve_node(t: &mut BvhTree)
    requires
        objs_ok(*old(t)),
    ensures
        objs_ok(*final(t)),
        size(*final(t)) == size(*old(t)),
        objs_preserved(objects(*old(t)), objects(*final(t))),
        objects(*old(t)).len() == 1 ==> *final(t) == *old(t),
        objects(*old(t)).len() == 2 ==> ({
            let pr = pair_resolution(objects(*old(t))[0], objects(*old(t))[1]);
            objects(*final(t)) == seq![pr.0, pr.1]
        }),
        pairwise_disjoint(objects(*old(t))) ==> objects(*final(t)) == objects(*old(t)),
    decreases size(*old(t)),
{
    match &mut *t {
        BvhTree::Leaf(o) => {
            proof {
                lemma_preserved_refl(objects(*t));
            }
        },
        BvhTree::Node { volume, left, right } => {
            proof {
                lemma_objects_len(**left);
                lemma_objects_len(**right);
            }
            let ghost l0 = objects(**left);
            let ghost r0 = objects(**right);
            resolve_node(left);
            let ghost l1 = objects(**left);
            resolve_node(right);
            let ghost r1 = objects(**right);
            resolve_cross(left, right);
            proof {
                lemma_preserved_trans(l0, l1, objects(**left));
                lemma_preserved_trans(r0, r1, objects(**right));
                lemma_preserved_concat(l0, objects(**left), r0, objects(**right));
                if pairwise_disjoint(l0 + r0) {
                    lemma_disjoint_split(l0, r0);
                    assert(objects(*t) =~= l0 + r0);
                }
                if l0.len() == 1 && r0.len() == 1 {
                    let pr = pair_resolution(l0[0], r0[0]);
                    assert(objects(**left) == seq![pr.0] && objects(**right) == seq![pr.1]);
                    assert(objects(*t) =~= seq![pr.0, pr.1]);
                }
            }
        },
    }
}

/// The bounding-volume hierarchy over the tick's collidable objects.
pub struct BVHierarchy {
    pub head: BvhTree,
}

impl BVHierarchy {
    /// The bodies at the leaves, left to right.
    pub open spec fn view(&self) -> Seq<CollisionObject> {
        objects(self.head)
    }

    /// A hierarchy holding one body.
    pub fn new(root_object: CollisionObject) -> (r: BVHierarchy)
        requires
            obj_ok(root_object),
            rect_wf(root_object.rect),
        ensures
            tree_wf(r.head),
            r@ == seq![root_object],
    {
        BVHierarchy { head: BvhTree::Leaf(root_object) }
    }

    /// Inserts a body as [`insert_node`] describes.
    pub fn insert(&mut self, object: CollisionObject)
        requires
            tree_wf(old(self).head),
            obj_ok(object),
            rect_wf(object.rect),
        ensures
            tree_wf(final(self).head),
            final(self)@.to_multiset() == old(self)@.to_multiset().insert(object),
            final(self)@.len() == old(self)@.len() + 1,
    {
        insert_node(&mut self.head, object);
    }

    /// One resolution pass over every broad-phase candidate pair.  Every
    /// body keeps its identity, dimensions and mass, a body of inverse
    /// mass zero comes out exactly as it went in, and a hierarchy of two
    /// bodies comes out as their exact pairwise resolution.
    pub fn resolve_collisions(&mut self)
        requires
            objs_ok(old(self).head),
        ensures
            objs_ok(final(self).head),
            objs_preserved(old(self)@, final(self)@),
            old(self)@.len() == 2 ==> ({
                let pr = pair_resolution(old(self)@[0], old(self)@[1]);
                final(self)@ == seq![pr.0, pr.1]
            }),
            pairwise_disjoint(old(self)@) ==> final(self)@ == old(self)@,
    {
        resolve_node(&mut self.head);
    }

    /// The bodies at the leaves, left to right, as a vector.
    pub fn leaves(&self) -> (v: Vec<CollisionObject>)
        ensures
            v@ == self@,
    {
        let mut out: Vec<CollisionObject> = Vec::new();
        proof {
            assert(out@ =~= Seq::<CollisionObject>::empty());
        }
        collect_leaves(&self.head, &mut out);
        proof {
            assert(Seq::<CollisionObject>::empty() + objects(self.head) =~= objects(self.head));
        }
        out
    }
}

/// Appends the subtree's bodies, left to right.
fn collect_leaves(t: &BvhTree, out: &mut Vec<CollisionObject>)
    ensures
        final(out)@ == old(out)@ + objects(*t),
    decreases *t,
{
    match t {
        BvhTree::Leaf(o) => {
            out.push(*o);
            proof {
                assert(out@ =~= old(out)@ + objects(*t));
            }
        },
        BvhTree::Node { volume, left, right } => {
            collect_leaves(left, out);
            collect_leaves(right, out);
            proof {
                assert(out@ =~= old(out)@ + objects(*t));
            }
        },
    }
}

} // verus!
