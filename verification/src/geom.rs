//! Geometry primitives: points on an integer grid, squared distances,
//! circular areas, and the line-of-sight collision test.

use vstd::prelude::*;

verus! {

/// Coordinates are confined to this symmetric range so that every squared
/// distance fits in an `i64` and every product used by the collision test
/// fits in an `i128`.
pub const COORD_LIMIT: i64 = 1_000_000;

/// A point of the workspace grid.
#[derive(Clone, Copy, Debug, PartialEq, Eq, Structural)]
pub struct Point {
    pub x: i64,
    pub y: i64,
}

pub open spec fn coord_ok(c: i64) -> bool {
    -COORD_LIMIT <= c <= COORD_LIMIT
}

pub open spec fn point_ok(p: Point) -> bool {
    coord_ok(p.x) && coord_ok(p.y)
}

/// The squared Euclidean distance between two points.
pub open spec fn sq_dist_spec(a: Point, b: Point) -> int {
    (a.x - b.x) * (a.x - b.x) + (a.y - b.y) * (a.y - b.y)
}

/// `-m <= a <= m` and `-n <= b <= n` bound the product `a * b` by `m * n`.
pub(crate) proof fn lemma_mul_bound(a: int, b: int, m: int, n: int)
    by (nonlinear_arith)
    requires
        0 <= m,
        0 <= n,
        -m <= a <= m,
        -n <= b <= n,
    ensures
        -(m * n) <= a * b <= m * n,
{
}

impl Point {
    /// Squared distance to `other`; square roots are avoided on hot paths.
    pub fn sq_dist(&self, other: &Point) -> (r: i64)
        requires
            point_ok(*self),
            point_ok(*other),
        ensures
            r == sq_dist_spec(*self, *other),
    {
        let dx: i64 = self.x - other.x;
        let dy: i64 = self.y - other.y;
        proof {
            lemma_mul_bound(dx as int, dx as int, 2_000_000, 2_000_000);
            lemma_mul_bound(dy as int, dy as int, 2_000_000, 2_000_000);
        }
        dx * dx + dy * dy
    }
}

/// A circular region: the start area, the finish area, or an obstacle.
#[derive(Clone, Copy, Debug, PartialEq, Eq, Structural)]
pub struct CircleArea {
    pub center: Point,
    pub radius: i64,
}

pub open spec fn circle_ok(c: CircleArea) -> bool {
    point_ok(c.center) && 0 <= c.radius <= COORD_LIMIT
}

/// Whether the segment `src -> dst` passes strictly inside the circle `obs`.
///
/// The closest point of the segment to the circle's center is found by
/// projecting the center onto the segment's direction and clamping to the
/// segment's ends; the projection parameter is the rational `wd / dd`, so
/// the three cases compare exactly with cross-multiplied integers.
pub open spec fn seg_blocked_by(src: Point, dst: Point, obs: CircleArea) -> bool {
    let dx = dst.x - src.x;
    let dy = dst.y - src.y;
    let wx = obs.center.x - src.x;
    let wy = obs.center.y - src.y;
    let dd = dx * dx + dy * dy;
    let wd = wx * dx + wy * dy;
    let ww = wx * wx + wy * wy;
    let rr = obs.radius * obs.radius;
    if wd <= 0 {
        ww < rr
    } else if wd >= dd {
        sq_dist_spec(dst, obs.center) < rr
    } else {
        ww * dd - wd * wd < rr * dd
    }
}

/// The segment `src -> dst` makes progress (its endpoints differ) and no
/// obstacle of the sequence blocks it.
pub open spec fn route_free(src: Point, dst: Point, obstacles: Seq<CircleArea>) -> bool {
    &&& sq_dist_spec(src, dst) > 0
    &&& forall|i: int| 0 <= i < obstacles.len() ==> !seg_blocked_by(src, dst, obstacles[i])
}

/// Whether one obstacle blocks the segment, computed with `i128` products.
fn seg_blocked(src: &Point, dst: &Point, obs: &CircleArea) -> (r: bool)
    requires
        point_ok(*src),
        point_ok(*dst),
        circle_ok(*obs),
    ensures
        r == seg_blocked_by(*src, *dst, *obs),
{
    let dx: i128 = (dst.x - src.x) as i128;
    let dy: i128 = (dst.y - src.y) as i128;
    let wx: i128 = (obs.center.x - src.x) as i128;
    let wy: i128 = (obs.center.y - src.y) as i128;
    proof {
        lemma_mul_bound(dx as int, dx as int, 2_000_000, 2_000_000);
        lemma_mul_bound(dy as int, dy as int, 2_000_000, 2_000_000);
        lemma_mul_bound(wx as int, wx as int, 2_000_000, 2_000_000);
        lemma_mul_bound(wy as int, wy as int, 2_000_000, 2_000_000);
        lemma_mul_bound(wx as int, dx as int, 2_000_000, 2_000_000);
        lemma_mul_bound(wy as int, dy as int, 2_000_000, 2_000_000);
        lemma_mul_bound(
            obs.radius as int,
            obs.radius as int,
            1_000_000,
            1_000_000,
        );
    }
    let dd: i128 = dx * dx + dy * dy;
    let wd: i128 = wx * dx + wy * dy;
    let ww: i128 = wx * wx + wy * wy;
    let rr: i128 = (obs.radius as i128) * (obs.radius as i128);
    if wd <= 0 {
        ww < rr
    } else if wd >= dd {
        let ex: i128 = (dst.x - obs.center.x) as i128;
        let ey: i128 = (dst.y - obs.center.y) as i128;
        proof {
            lemma_mul_bound(ex as int, ex as int, 2_000_000, 2_000_000);
            lemma_mul_bound(ey as int, ey as int, 2_000_000, 2_000_000);
        }
        ex * ex + ey * ey < rr
    } else {
        proof {
            let big: int = 8_000_000_000_000;
            lemma_mul_bound(ww as int, dd as int, big, big);
            lemma_mul_bound(wd as int, wd as int, big, big);
            lemma_mul_bound(rr as int, dd as int, big, big);
        }
        ww * dd - wd * wd < rr * dd
    }
}

/// Line-of-sight test: whether the straight segment from `src` to `dst` is
/// collision-free with respect to every obstacle.
///
/// A degenerate segment (coincident endpoints) is rejected as "no route":
/// it makes no progress. Otherwise the obstacles are scanned in order and
/// the first blocking one decides.
pub fn has_route(src: &Point, dst: &Point, obstacles: &Vec<CircleArea>) -> (r: bool)
    requires
        point_ok(*src),
        point_ok(*dst),
        forall|i: int| 0 <= i < obstacles@.len() ==> circle_ok(obstacles@[i]),
    ensures
        r == route_free(*src, *dst, obstacles@),
{
    let d = src.sq_dist(dst);
    if d <= 0 {
        return false;
    }
    let n = obstacles.len();
    let mut k: usize = 0;
    while k < n
        invariant
            n == obstacles@.len(),
            0 <= k <= n,
            point_ok(*src),
            point_ok(*dst),
            forall|i: int| 0 <= i < obstacles@.len() ==> circle_ok(obstacles@[i]),
            forall|i: int| 0 <= i < k ==> !seg_blocked_by(*src, *dst, obstacles@[i]),
        decreases n - k,
    {
        if seg_blocked(src, dst, &obstacles[k]) {
            return false;
        }
        k += 1;
    }
    true
}

/// Two distinct grid points are always joined by a route when no obstacle
/// is present.
pub proof fn lemma_no_obstacles_route(src: Point, dst: Point)
    requires
        src != dst,
    ensures
        route_free(src, dst, Seq::<CircleArea>::empty()),
{
    assert(sq_dist_spec(src, dst) > 0) by (nonlinear_arith)
        requires
            src.x != dst.x || src.y != dst.y,
    ;
}

} // verus!
