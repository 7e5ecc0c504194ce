//! Narrow-phase separation and the bounding-volume hierarchy.

use fighter_core::collision::{
    resolve_pair, BVHierarchy, CollisionObject, CollisionObjectType,
};
use fighter_core::geom::{rects_overlap, Rect};
use fighter_core::particle::Particle;
use fighter_core::vecmath::PhysVec;

fn dynamic_obj(ent: usize, rect: Rect) -> CollisionObject {
    let particle = Particle::new(
        PhysVec::new((rect.x as i64) * 1000, (rect.y as i64) * 1000),
        1000,
        1000,
    );
    CollisionObject::new_from(CollisionObjectType::Fighter, ent, rect, particle)
}

fn static_obj(ent: usize, rect: Rect) -> CollisionObject {
    let particle = Particle::new(
        PhysVec::new((rect.x as i64) * 1000, (rect.y as i64) * 1000),
        1000,
        2_000_000_000_000,
    );
    CollisionObject::new_from(CollisionObjectType::Platform, ent, rect, particle)
}

#[test]
fn overlapping_pair_separates_along_least_penetration_axis() {
    // five units of horizontal overlap, ten vertical: x is the lesser axis
    let mut a = dynamic_obj(0, Rect::new(0, 0, 10, 10));
    let mut b = static_obj(1, Rect::new(5, 0, 10, 10));
    assert!(rects_overlap(&a.rect, &b.rect));

    resolve_pair(&mut a, &mut b);

    assert!(!rects_overlap(&a.rect, &b.rect));
    // the immovable body did not move, the dynamic one took the whole push
    assert_eq!(b.rect, Rect::new(5, 0, 10, 10));
    assert_eq!(a.rect, Rect::new(-5, 0, 10, 10));
    // the dynamic body's particle moved with its rectangle, velocity zeroed
    assert_eq!(a.particle.position.x, -5000);
    assert_eq!(a.particle.velocity.x, 0);
    assert_eq!(b.particle.position.x, 5000);
}

#[test]
fn equal_masses_split_the_push_evenly() {
    let mut a = dynamic_obj(0, Rect::new(0, 0, 10, 10));
    let mut b = dynamic_obj(1, Rect::new(6, 0, 10, 10));

    resolve_pair(&mut a, &mut b);

    assert_eq!(a.rect.x, -2);
    assert_eq!(b.rect.x, 8);
    assert!(!rects_overlap(&a.rect, &b.rect));
}

#[test]
fn vertical_overlap_resolves_vertically() {
    // three units of vertical overlap, ten horizontal: y is the lesser axis
    let mut a = dynamic_obj(0, Rect::new(0, 0, 10, 10));
    let mut b = static_obj(1, Rect::new(0, 7, 10, 10));

    resolve_pair(&mut a, &mut b);

    assert!(!rects_overlap(&a.rect, &b.rect));
    assert_eq!(a.rect, Rect::new(0, -3, 10, 10));
    assert_eq!(b.rect, Rect::new(0, 7, 10, 10));
    assert_eq!(a.particle.velocity.y, 0);
}

#[test]
fn disjoint_and_static_pairs_are_left_alone() {
    let a0 = dynamic_obj(0, Rect::new(0, 0, 10, 10));
    let b0 = dynamic_obj(1, Rect::new(50, 50, 10, 10));
    let mut a = a0;
    let mut b = b0;
    resolve_pair(&mut a, &mut b);
    assert_eq!(a, a0);
    assert_eq!(b, b0);

    let c0 = static_obj(2, Rect::new(0, 0, 10, 10));
    let d0 = static_obj(3, Rect::new(5, 0, 10, 10));
    let mut c = c0;
    let mut d = d0;
    resolve_pair(&mut c, &mut d);
    assert_eq!(c, c0);
    assert_eq!(d, d0);
}

#[test]
fn hierarchy_keeps_every_inserted_body() {
    let mut h = BVHierarchy::new(static_obj(3, Rect::new(40, 620, 1200, 40)));
    h.insert(dynamic_obj(0, Rect::new(100, 100, 10, 10)));
    h.insert(dynamic_obj(1, Rect::new(500, 200, 10, 10)));
    h.insert(dynamic_obj(2, Rect::new(900, 300, 10, 10)));

    let objs = h.leaves();
    assert_eq!(objs.len(), 4);
    let mut ents: Vec<usize> = objs.iter().map(|o| o.ent).collect();
    ents.sort();
    assert_eq!(ents, vec![0, 1, 2, 3]);
}

#[test]
fn hierarchy_resolves_an_overlapping_pair() {
    let platform = static_obj(3, Rect::new(0, 100, 100, 10));
    let faller = dynamic_obj(0, Rect::new(20, 95, 10, 10));
    let mut h = BVHierarchy::new(platform);
    h.insert(faller);

    h.resolve_collisions();

    let objs = h.leaves();
    let p = objs.iter().find(|o| o.ent == 3).expect("platform is kept");
    let f = objs.iter().find(|o| o.ent == 0).expect("faller is kept");
    assert_eq!(p.rect, Rect::new(0, 100, 100, 10));
    assert!(!rects_overlap(&p.rect, &f.rect));
    // five units of vertical overlap against ten horizontal: pushed up
    assert_eq!(f.rect, Rect::new(20, 90, 10, 10));
    assert_eq!(f.particle.velocity.y, 0);
}
