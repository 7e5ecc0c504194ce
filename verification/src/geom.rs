//! Points and axis-aligned rectangles in screen coordinates.
//!
//! Rectangles are given by their top-left corner, width and height; the
//! y axis grows downward.  All coordinates used by the collision system
//! stay within [`COORD_MAX`] so that unions and separations never leave
//! the machine range.

use vstd::prelude::*;

verus! {

/// Coordinate bound for well-formed rectangles.
pub const COORD_MAX: i32 = 100_000_000;

#[derive(Clone, Copy, Debug, PartialEq, Eq, Structural)]
pub struct Point {
    pub x: i32,
    pub y: i32,
}

impl Point {
    pub fn new(x: i32, y: i32) -> (r: Point)
        ensures
            r.x == x,
            r.y == y,
    {
        Point { x, y }
    }
}

#[derive(Clone, Copy, Debug, PartialEq, Eq, Structural)]
pub struct Rect {
    pub x: i32,
    pub y: i32,
    pub w: u32,
    pub h: u32,
}

pub open spec fn left(r: Rect) -> int {
    r.x as int
}

pub open spec fn right(r: Rect) -> int {
    r.x + r.w
}

pub open spec fn top(r: Rect) -> int {
    r.y as int
}

pub open spec fn bottom(r: Rect) -> int {
    r.y + r.h
}

/// The rectangle's edges all lie within the coordinate bound.
pub open spec fn rect_wf(r: Rect) -> bool {
    &&& -COORD_MAX <= left(r)
    &&& right(r) <= COORD_MAX
    &&& -COORD_MAX <= top(r)
    &&& bottom(r) <= COORD_MAX
}

/// Strict overlap: the interiors intersect; touching edges do not count.
pub open spec fn overlap(a: Rect, b: Rect) -> bool {
    &&& left(a) < right(b)
    &&& left(b) < right(a)
    &&& top(a) < bottom(b)
    &&& top(b) < bottom(a)
}

/// `outer` encloses `inner`.
pub open spec fn contains(outer: Rect, inner: Rect) -> bool {
    &&& left(outer) <= left(inner)
    &&& right(inner) <= right(outer)
    &&& top(outer) <= top(inner)
    &&& bottom(inner) <= bottom(outer)
}

impl Rect {
    pub fn new(x: i32, y: i32, w: u32, h: u32) -> (r: Rect)
        ensures
            r == (Rect { x, y, w, h }),
    {
        Rect { x, y, w, h }
    }

    pub fn x(&self) -> (r: i32)
        ensures
            r == self.x,
    {
        self.x
    }

    pub fn y(&self) -> (r: i32)
        ensures
            r == self.y,
    {
        self.y
    }

    pub fn width(&self) -> (r: u32)
        ensures
            r == self.w,
    {
        self.w
    }

    pub fn height(&self) -> (r: u32)
        ensures
            r == self.h,
    {
        self.h
    }

    /// Translates the rectangle by `(dx, dy)`.
    pub fn offset(&mut self, dx: i32, dy: i32)
        requires
            i32::MIN <= old(self).x + dx <= i32::MAX,
            i32::MIN <= old(self).y + dy <= i32::MAX,
        ensures
            final(self).x == old(self).x + dx,
            final(self).y == old(self).y + dy,
            final(self).w == old(self).w,
            final(self).h == old(self).h,
    {
        let nx: i64 = (self.x as i64) + (dx as i64);
        let ny: i64 = (self.y as i64) + (dy as i64);
        self.x = nx as i32;
        self.y = ny as i32;
    }

    pub fn set_x(&mut self, x: i32)
        ensures
            *final(self) == (Rect { x, ..*old(self) }),
    {
        self.x = x;
    }

    pub fn set_y(&mut self, y: i32)
        ensures
            *final(self) == (Rect { y, ..*old(self) }),
    {
        self.y = y;
    }

    /// The rectangle of size `w` by `h` whose center is `center`, corners
    /// rounded toward the top-left as in integer center arithmetic.
    pub fn from_center(center: Point, w: u32, h: u32) -> (r: Rect)
        requires
            -COORD_MAX / 2 <= center.x <= COORD_MAX / 2,
            -COORD_MAX / 2 <= center.y <= COORD_MAX / 2,
            w <= COORD_MAX as u32,
            h <= COORD_MAX as u32,
        ensures
            r.x == center.x - w / 2,
            r.y == center.y - h / 2,
            r.w == w,
            r.h == h,
    {
        let hx: i64 = (w / 2) as i64;
        let hy: i64 = (h / 2) as i64;
        Rect {
            x: ((center.x as i64) - hx) as i32,
            y: ((center.y as i64) - hy) as i32,
            w,
            h,
        }
    }
}

/// Whether two rectangles strictly overlap.
pub fn rects_overlap(a: &Rect, b: &Rect) -> (r: bool)
    ensures
        r == overlap(*a, *b),
{
    let a_left: i64 = a.x as i64;
    let a_right: i64 = (a.x as i64) + (a.w as i64);
    let a_top: i64 = a.y as i64;
    let a_bottom: i64 = (a.y as i64) + (a.h as i64);
    let b_left: i64 = b.x as i64;
    let b_right: i64 = (b.x as i64) + (b.w as i64);
    let b_top: i64 = b.y as i64;
    let b_bottom: i64 = (b.y as i64) + (b.h as i64);
    a_left < b_right && b_left < a_right && a_top < b_bottom && b_top < a_bottom
}

/// The smallest rectangle enclosing both arguments.
pub fn rect_union(a: &Rect, b: &Rect) -> (r: Rect)
    requires
        rect_wf(*a),
        rect_wf(*b),
    ensures
        rect_wf(r),
        left(r) == if left(*a) <= left(*b) { left(*a) } else { left(*b) },
        top(r) == if top(*a) <= top(*b) { top(*a) } else { top(*b) },
        right(r) == if right(*a) >= right(*b) { right(*a) } else { right(*b) },
        bottom(r) == if bottom(*a) >= bottom(*b) { bottom(*a) } else { bottom(*b) },
        contains(r, *a),
        contains(r, *b),
{
    let a_right: i64 = (a.x as i64) + (a.w as i64);
    let a_bottom: i64 = (a.y as i64) + (a.h as i64);
    let b_right: i64 = (b.x as i64) + (b.w as i64);
    let b_bottom: i64 = (b.y as i64) + (b.h as i64);
    let x: i32 = if a.x <= b.x { a.x } else { b.x };
    let y: i32 = if a.y <= b.y { a.y } else { b.y };
    let r: i64 = if a_right >= b_right { a_right } else { b_right };
    let btm: i64 = if a_bottom >= b_bottom { a_bottom } else { b_bottom };
    Rect { x, y, w: (r - (x as i64)) as u32, h: (btm - (y as i64)) as u32 }
}

/// The rectangle's area, for the insertion growth heuristic.
pub fn rect_area(r: &Rect) -> (a: u64)
    ensures
        a == r.w * r.h,
{
    proof {
        assert(r.w * r.h <= u32::MAX * u32::MAX) by (nonlinear_arith)
            requires
                r.w <= u32::MAX && r.h <= u32::MAX,
        ;
    }
    (r.w as u64) * (r.h as u64)
}

} // verus!
