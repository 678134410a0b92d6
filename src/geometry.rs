use vstd::prelude::*;

verus! {

/// A point or offset on the screen, in whole pixels.
#[derive(Clone, Copy, Debug, PartialEq, Eq, Structural)]
pub struct Vec2i {
    pub x: i32,
    pub y: i32,
}

/// A point or offset in the world, in millimetres.
#[derive(Clone, Copy, Debug, PartialEq, Eq, Structural)]
pub struct Vec3i {
    pub x: i32,
    pub y: i32,
    pub z: i32,
}

/// An axis-aligned rectangle with `min` at or below `max` on both axes.
#[derive(Clone, Copy, Debug, PartialEq, Eq, Structural)]
pub struct Rect {
    pub min: Vec2i,
    pub max: Vec2i,
}

impl Vec2i {
    pub fn new(x: i32, y: i32) -> (r: Vec2i)
        ensures
            r == (Vec2i { x, y }),
    {
        Vec2i { x, y }
    }
}

impl Vec3i {
    pub fn new(x: i32, y: i32, z: i32) -> (r: Vec3i)
        ensures
            r == (Vec3i { x, y, z }),
    {
        Vec3i { x, y, z }
    }
}

pub open spec fn min_of(a: int, b: int) -> int {
    if a <= b { a } else { b }
}

pub open spec fn max_of(a: int, b: int) -> int {
    if a <= b { b } else { a }
}

/// Squared Euclidean distance between two screen points.
pub open spec fn dist_sq(a: Vec2i, b: Vec2i) -> int {
    (a.x - b.x) * (a.x - b.x) + (a.y - b.y) * (a.y - b.y)
}

/// The closed box `[x0, x1] x [y0, y1]` holds `p`.
pub open spec fn in_box(x0: int, y0: int, x1: int, y1: int, p: Vec2i) -> bool {
    x0 <= p.x <= x1 && y0 <= p.y <= y1
}

/// `p` lies in the closed disc of radius `r` around `(cx, cy)`.
pub open spec fn in_disc(cx: int, cy: int, r: int, p: Vec2i) -> bool {
    (p.x - cx) * (p.x - cx) + (p.y - cy) * (p.y - cy) <= r * r
}

impl Rect {
    pub open spec fn wf(self) -> bool {
        self.min.x <= self.max.x && self.min.y <= self.max.y
    }

    /// The rectangle spanned by two opposite corners, in either order.
    pub fn new(x0: i32, y0: i32, x1: i32, y1: i32) -> (r: Rect)
        ensures
            r.wf(),
            r.min.x == min_of(x0 as int, x1 as int),
            r.min.y == min_of(y0 as int, y1 as int),
            r.max.x == max_of(x0 as int, x1 as int),
            r.max.y == max_of(y0 as int, y1 as int),
    {
        let (lx, hx) = if x0 <= x1 { (x0, x1) } else { (x1, x0) };
        let (ly, hy) = if y0 <= y1 { (y0, y1) } else { (y1, y0) };
        Rect { min: Vec2i { x: lx, y: ly }, max: Vec2i { x: hx, y: hy } }
    }

    pub open spec fn spec_contains(self, p: Vec2i) -> bool {
        in_box(self.min.x as int, self.min.y as int, self.max.x as int, self.max.y as int, p)
    }

    /// Whether `p` lies in the rectangle, edges included.
    pub fn contains(&self, p: Vec2i) -> (r: bool)
        ensures
            r == self.spec_contains(p),
    {
        self.min.x <= p.x && p.x <= self.max.x && self.min.y <= p.y && p.y <= self.max.y
    }
}

/// The corner test of a rounded rectangle: `p` lies in one of the four corner
/// squares of side `c` and inside the quarter disc of that corner.
pub open spec fn in_rounded_corner(rect: Rect, c: int, p: Vec2i) -> bool {
    let (x0, y0, x1, y1) = (rect.min.x as int, rect.min.y as int, rect.max.x as int, rect.max.y as int);
    (in_box(x0, y0, x0 + c, y0 + c, p) && in_disc(x0 + c, y0 + c, c, p))
    || (in_box(x1 - c, y0, x1, y0 + c, p) && in_disc(x1 - c, y0 + c, c, p))
    || (in_box(x0, y1 - c, x0 + c, y1, p) && in_disc(x0 + c, y1 - c, c, p))
    || (in_box(x1 - c, y1 - c, x1, y1, p) && in_disc(x1 - c, y1 - c, c, p))
}

/// A rectangle with corners rounded to radius `c` holds `p`: either one of the
/// two bands that skip the corners holds it, or a corner quarter disc does.
/// The radius used for the corners is capped by the width and the height.
pub open spec fn rounded_rect_contains(rect: Rect, c: int, p: Vec2i) -> bool {
    let (x0, y0, x1, y1) = (rect.min.x as int, rect.min.y as int, rect.max.x as int, rect.max.y as int);
    let w = x1 - x0;
    let h = y1 - y0;
    (w - 2 * c > 0 && in_box(x0 + c, y0, x1 - c, y1, p))
    || (h - 2 * c > 0 && in_box(x0, y0 + c, x1, y1 - c, p))
    || (rect.spec_contains(p) && in_rounded_corner(rect, min_of(min_of(c, w), h), p))
}

/// `p` lies in the closed disc of radius `r` around `(cx, cy)`; all values
/// are widened before squaring.
fn disc_holds(cx: i64, cy: i64, r: i64, p: Vec2i) -> (b: bool)
    requires
        -0x4_0000_0000 <= cx <= 0x4_0000_0000,
        -0x4_0000_0000 <= cy <= 0x4_0000_0000,
        0 <= r <= 0x4_0000_0000,
    ensures
        b == in_disc(cx as int, cy as int, r as int, p),
{
    let dx: i128 = p.x as i128 - cx as i128;
    let dy: i128 = p.y as i128 - cy as i128;
    let rr: i128 = r as i128;
    assert(0 <= dx * dx <= 0x100_0000_0000_0000_0000) by (nonlinear_arith)
        requires -0x10_0000_0000 <= dx <= 0x10_0000_0000;
    assert(0 <= dy * dy <= 0x100_0000_0000_0000_0000) by (nonlinear_arith)
        requires -0x10_0000_0000 <= dy <= 0x10_0000_0000;
    assert(0 <= rr * rr <= 0x100_0000_0000_0000_0000) by (nonlinear_arith)
        requires 0 <= rr <= 0x10_0000_0000;
    dx * dx + dy * dy <= rr * rr
}

fn box_holds(x0: i64, y0: i64, x1: i64, y1: i64, p: Vec2i) -> (b: bool)
    ensures
        b == in_box(x0 as int, y0 as int, x1 as int, y1 as int, p),
{
    x0 <= p.x as i64 && p.x as i64 <= x1 && y0 <= p.y as i64 && p.y as i64 <= y1
}

/// Whether a rectangle whose corners are rounded to `corner_radius` holds
/// `point`, edges included.
pub fn contains_point(rect: Rect, corner_radius: i32, point: Vec2i) -> (r: bool)
    requires
        rect.wf(),
        corner_radius >= 0,
    ensures
        r == rounded_rect_contains(rect, corner_radius as int, point),
{
    let c = corner_radius as i64;
    let x0 = rect.min.x as i64;
    let y0 = rect.min.y as i64;
    let x1 = rect.max.x as i64;
    let y1 = rect.max.y as i64;
    let w = x1 - x0;
    let h = y1 - y0;
    if w - 2 * c > 0 && box_holds(x0 + c, y0, x1 - c, y1, point) {
        return true;
    }
    if h - 2 * c > 0 && box_holds(x0, y0 + c, x1, y1 - c, point) {
        return true;
    }
    if !rect.contains(point) {
        return false;
    }
    let cr = if c <= w { c } else { w };
    let cr = if cr <= h { cr } else { h };
    (box_holds(x0, y0, x0 + cr, y0 + cr, point) && disc_holds(x0 + cr, y0 + cr, cr, point))
        || (box_holds(x1 - cr, y0, x1, y0 + cr, point) && disc_holds(x1 - cr, y0 + cr, cr, point))
        || (box_holds(x0, y1 - cr, x0 + cr, y1, point) && disc_holds(x0 + cr, y1 - cr, cr, point))
        || (box_holds(x1 - cr, y1 - cr, x1, y1, point) && disc_holds(x1 - cr, y1 - cr, cr, point))
}

} // verus!

verus! {

/// `r` is the whole square root of `a`, rounded down.
pub open spec fn is_floor_sqrt(a: int, r: int) -> bool {
    0 <= r && r * r <= a < (r + 1) * (r + 1)
}

/// The square root of `a`, rounded down.
pub open spec fn floor_sqrt(a: nat) -> nat {
    choose|r: nat| is_floor_sqrt(a as int, r as int)
}

/// At most one whole number is the rounded-down square root of `a`.
pub proof fn lemma_floor_sqrt_unique(a: int, r1: int, r2: int)
    requires
        is_floor_sqrt(a, r1),
        is_floor_sqrt(a, r2),
    ensures
        r1 == r2,
{
    if r1 < r2 {
        assert((r1 + 1) * (r1 + 1) <= r2 * r2) by (nonlinear_arith)
            requires 0 <= r1, r1 + 1 <= r2;
    } else if r2 < r1 {
        assert((r2 + 1) * (r2 + 1) <= r1 * r1) by (nonlinear_arith)
            requires 0 <= r2, r2 + 1 <= r1;
    }
}

pub proof fn lemma_floor_sqrt_of(a: nat, r: nat)
    requires
        is_floor_sqrt(a as int, r as int),
    ensures
        floor_sqrt(a) == r,
{
    let s = floor_sqrt(a);
    assert(is_floor_sqrt(a as int, s as int));
    lemma_floor_sqrt_unique(a as int, r as int, s as int);
}

pub proof fn lemma_floor_sqrt_monotonic(a1: nat, a2: nat)
    requires
        a1 <= a2,
    ensures
        floor_sqrt(a1) <= floor_sqrt(a2),
{
    let r1 = floor_sqrt(a1) as int;
    let r2 = floor_sqrt(a2) as int;
    lemma_floor_sqrt_exists(a1);
    lemma_floor_sqrt_exists(a2);
    if r1 > r2 {
        assert((r2 + 1) * (r2 + 1) <= r1 * r1) by (nonlinear_arith)
            requires 0 <= r2, r2 + 1 <= r1;
    }
}

/// Every natural number has a rounded-down square root.
pub proof fn lemma_floor_sqrt_exists(a: nat)
    ensures
        is_floor_sqrt(a as int, floor_sqrt(a) as int),
    decreases a,
{
    if a == 0 {
        assert(is_floor_sqrt(0, 0));
    } else {
        lemma_floor_sqrt_exists((a - 1) as nat);
        let r = floor_sqrt((a - 1) as nat);
        if (r + 1) * (r + 1) <= a {
            assert(a < (r + 2) * (r + 2)) by (nonlinear_arith)
                requires a - 1 < (r + 1) * (r + 1), r >= 0;
            assert(is_floor_sqrt(a as int, (r + 1) as int));
        } else {
            assert(is_floor_sqrt(a as int, r as int));
        }
    }
}

/// The square root of `a`, rounded down, found by halving an interval.
pub fn isqrt(a: u128) -> (r: u64)
    requires
        a < 0x10_0000_0000_0000_0000_0000_0000,
    ensures
        is_floor_sqrt(a as int, r as int),
        r == floor_sqrt(a as nat),
{
    let mut lo: u128 = 0;
    let mut hi: u128 = 0x4_0000_0000_0000;
    assert(hi * hi == 0x10_0000_0000_0000_0000_0000_0000);
    while hi - lo > 1
        invariant
            lo < hi <= 0x4_0000_0000_0000,
            lo * lo <= a,
            a < hi * hi,
        decreases hi - lo,
    {
        let mid = lo + (hi - lo) / 2;
        assert(mid * mid <= 0x10_0000_0000_0000_0000_0000_0000) by (nonlinear_arith)
            requires mid <= 0x4_0000_0000_0000;
        if mid * mid <= a {
            lo = mid;
        } else {
            hi = mid;
        }
    }
    assert(hi == lo + 1);
    proof {
        lemma_floor_sqrt_of(a as nat, lo as nat);
    }
    lo as u64
}

} // verus!
