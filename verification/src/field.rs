//! The field model: start and finish circular regions and a bounding
//! rectangle derived from the workspace extents, a start point placed
//! inside the start region, and a mutable list of circular obstacles.

use vstd::prelude::*;
use crate::geom::{CircleArea, Point, circle_ok, coord_ok, point_ok, sq_dist_spec};

verus! {

/// The derived, immutable part of a field: the two circular regions and
/// the bounding rectangle `(min_x, min_y, max_x, max_y)`.
#[derive(Clone, Copy, Debug, PartialEq, Eq)]
pub struct FieldConfig {
    pub start_area: CircleArea,
    pub finish_area: CircleArea,
    pub field_area: (i64, i64, i64, i64),
}

/// The side of the square the regions are sized from: the smaller
/// workspace extent, clamped to 40 grid units.
pub open spec fn cfg_side(min_x: int, min_y: int, max_x: int, max_y: int) -> int {
    let width = max_x - min_x;
    let height = max_y - min_y;
    let side = if width < height { width } else { height };
    if side < 40 { side } else { 40 }
}

/// The start and finish radius: a quarter of the clamped side, rounded
/// down in two halving steps.
pub open spec fn cfg_radius(min_x: int, min_y: int, max_x: int, max_y: int) -> int {
    (cfg_side(min_x, min_y, max_x, max_y) / 2) / 2
}

/// What `FieldConfig::new` builds: each region's center sits one padding
/// plus one radius (both equal to `cfg_radius`) in from its corner.
pub open spec fn config_spec(c: FieldConfig, min_x: int, min_y: int, max_x: int, max_y: int) -> bool {
    let r = cfg_radius(min_x, min_y, max_x, max_y);
    &&& c.start_area.center.x == min_x + 2 * r
    &&& c.start_area.center.y == min_y + 2 * r
    &&& c.start_area.radius == r
    &&& c.finish_area.center.x == max_x - 2 * r
    &&& c.finish_area.center.y == max_y - 2 * r
    &&& c.finish_area.radius == r
    &&& c.field_area == (min_x as i64, min_y as i64, max_x as i64, max_y as i64)
}

/// The point lies inside the bounding rectangle, as a drawn sample does:
/// the lower bounds closed, the upper bounds open.
pub open spec fn in_bounds(p: Point, area: (i64, i64, i64, i64)) -> bool {
    &&& area.0 <= p.x < area.2
    &&& area.1 <= p.y < area.3
}

/// A config the solver can work on: coordinates in range and a bounding
/// rectangle with a nonempty interior to sample from.
pub open spec fn config_ok(c: FieldConfig) -> bool {
    &&& circle_ok(c.start_area)
    &&& circle_ok(c.finish_area)
    &&& coord_ok(c.field_area.0) && coord_ok(c.field_area.1)
    &&& coord_ok(c.field_area.2) && coord_ok(c.field_area.3)
    &&& c.field_area.0 < c.field_area.2
    &&& c.field_area.1 < c.field_area.3
}

impl FieldConfig {
    /// Derive the start region, finish region and bounding rectangle from
    /// the workspace extents.
    pub fn new(min_x: i64, min_y: i64, max_x: i64, max_y: i64) -> (c: FieldConfig)
        requires
            coord_ok(min_x),
            coord_ok(min_y),
            coord_ok(max_x),
            coord_ok(max_y),
            min_x < max_x,
            min_y < max_y,
        ensures
            config_spec(c, min_x as int, min_y as int, max_x as int, max_y as int),
            config_ok(c),
    {
        let width: i64 = max_x - min_x;
        let height: i64 = max_y - min_y;
        let area_side: i64 = if width < height { width } else { height };
        let area_side: i64 = if area_side < 40 { area_side } else { 40 };
        let diameter: i64 = area_side / 2;
        let radius: i64 = diameter / 2;
        let padding2: i64 = diameter;
        let padding: i64 = padding2 / 2;

        FieldConfig {
            start_area: CircleArea {
                center: Point { x: min_x + padding + radius, y: min_y + padding + radius },
                radius,
            },
            finish_area: CircleArea {
                center: Point { x: max_x - padding - radius, y: max_y - padding - radius },
                radius,
            },
            field_area: (min_x, min_y, max_x, max_y),
        }
    }
}

/// Both regions have the same radius and lie fully inside the bounding
/// rectangle, symmetric across its diagonal.
pub proof fn lemma_config_regions_inside(c: FieldConfig, min_x: int, min_y: int, max_x: int, max_y: int)
    requires
        min_x < max_x,
        min_y < max_y,
        config_spec(c, min_x, min_y, max_x, max_y),
    ensures
        c.start_area.radius == c.finish_area.radius,
        min_x <= c.start_area.center.x - c.start_area.radius,
        c.start_area.center.x + c.start_area.radius <= max_x,
        min_y <= c.start_area.center.y - c.start_area.radius,
        c.start_area.center.y + c.start_area.radius <= max_y,
        min_x <= c.finish_area.center.x - c.finish_area.radius,
        c.finish_area.center.x + c.finish_area.radius <= max_x,
        min_y <= c.finish_area.center.y - c.finish_area.radius,
        c.finish_area.center.y + c.finish_area.radius <= max_y,
        c.start_area.center.x - min_x == max_x - c.finish_area.center.x,
        c.start_area.center.y - min_y == max_y - c.finish_area.center.y,
{
    let side = cfg_side(min_x, min_y, max_x, max_y);
    let r = cfg_radius(min_x, min_y, max_x, max_y);
    assert(side <= max_x - min_x && side <= max_y - min_y);
    assert(0 <= r && 4 * r <= side);
}

/// A field: the derived config, the start point, and the obstacles in the
/// order the controller added them.
#[derive(Clone, Debug)]
pub struct Field {
    pub config: FieldConfig,
    pub start: Point,
    pub obstacles: Vec<CircleArea>,
}

/// A field the solver can be handed: a usable config, a start point in
/// range, and every obstacle in range.
pub open spec fn field_ok(f: Field) -> bool {
    &&& config_ok(f.config)
    &&& point_ok(f.start)
    &&& forall|i: int| 0 <= i < f.obstacles@.len() ==> circle_ok(#[trigger] f.obstacles@[i])
}

impl Field {
    /// Assemble a field from a config and a start point drawn inside the
    /// start region. The draw itself (a radius- and angle-uniform sample,
    /// which needs real arithmetic) is left to the caller.
    pub fn generate(config: FieldConfig, start: Point) -> (f: Field)
        requires
            config_ok(config),
            point_ok(start),
            sq_dist_spec(start, config.start_area.center)
                <= config.start_area.radius * config.start_area.radius,
        ensures
            f.config == config,
            f.start == start,
            f.obstacles@ =~= Seq::<CircleArea>::empty(),
            field_ok(f),
            sq_dist_spec(f.start, f.config.start_area.center)
                <= f.config.start_area.radius * f.config.start_area.radius,
    {
        Field { config, start, obstacles: Vec::new() }
    }

    /// Append one obstacle; the config and the start point are untouched.
    /// The controller only does this between solves.
    pub fn add_obstacle(&mut self, obstacle: CircleArea)
        requires
            circle_ok(obstacle),
        ensures
            final(self).config == old(self).config,
            final(self).start == old(self).start,
            final(self).obstacles@ == old(self).obstacles@.push(obstacle),
            field_ok(*old(self)) ==> field_ok(*final(self)),
    {
        self.obstacles.push(obstacle);
    }

    /// Remove every obstacle; the config and the start point are untouched.
    pub fn clear_obstacles(&mut self)
        ensures
            final(self).config == old(self).config,
            final(self).start == old(self).start,
            final(self).obstacles@ =~= Seq::<CircleArea>::empty(),
            field_ok(*old(self)) ==> field_ok(*final(self)),
    {
        self.obstacles.clear();
    }

    /// Run-time check of everything the solver requires of a field, for
    /// callers that assemble or receive one outside verified code.
    pub fn is_valid(&self) -> (r: bool)
        ensures
            r == field_ok(*self),
    {
        let c = &self.config;
        let config_good = circle_ok_exec(&c.start_area) && circle_ok_exec(&c.finish_area)
            && coord_ok_exec(c.field_area.0) && coord_ok_exec(c.field_area.1)
            && coord_ok_exec(c.field_area.2) && coord_ok_exec(c.field_area.3)
            && c.field_area.0 < c.field_area.2 && c.field_area.1 < c.field_area.3;
        if !config_good {
            return false;
        }
        if !(coord_ok_exec(self.start.x) && coord_ok_exec(self.start.y)) {
            return false;
        }
        let n = self.obstacles.len();
        let mut k: usize = 0;
        while k < n
            invariant
                n == self.obstacles@.len(),
                0 <= k <= n,
                forall|i: int| 0 <= i < k ==> circle_ok(#[trigger] self.obstacles@[i]),
            decreases n - k,
        {
            if !circle_ok_exec(&self.obstacles[k]) {
                return false;
            }
            k += 1;
        }
        true
    }
}

fn coord_ok_exec(c: i64) -> (r: bool)
    ensures
        r == coord_ok(c),
{
    -1_000_000 <= c && c <= 1_000_000
}

fn circle_ok_exec(c: &CircleArea) -> (r: bool)
    ensures
        r == circle_ok(*c),
{
    coord_ok_exec(c.center.x) && coord_ok_exec(c.center.y) && 0 <= c.radius && c.radius <= 1_000_000
}

} // verus!
