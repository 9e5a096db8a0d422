//! Axis-aligned box collision classification.
//!
//! `collide` tests two axis-aligned boxes, given by their centers and sizes,
//! for overlap, and classifies which face of the second box the first box
//! struck.  A face is reported only when the first box straddles that face:
//! its span on the axis starts outside the second box and ends strictly
//! inside it.  When faces on both axes qualify, the axis with the larger
//! penetration depth wins, and the x-axis wins ties.

use vstd::prelude::*;
use crate::units::MAX_COORD;
use crate::units::MAX_DIM;
use crate::units::MAX_DISP;
use crate::units::half_nonneg;

verus! {

/// A two-dimensional vector in thousandths of a world unit.
#[derive(Clone, Copy, Debug, PartialEq, Eq, Structural)]
pub struct Vec2 {
    pub x: i64,
    pub y: i64,
}

/// The face of the second box that the first box struck: `Left` and `Right`
/// flip a ball's horizontal velocity, `Top` and `Bottom` its vertical one.
#[derive(Clone, Copy, Debug, PartialEq, Eq, Structural)]
pub enum Collision {
    Left,
    Right,
    Top,
    Bottom,
}

/// The span `[a_min, a_max]` enters `[b_min, b_max]` across its low edge:
/// it starts below the edge and ends strictly inside.
pub open spec fn crosses_low_edge(a_min: int, a_max: int, b_min: int, b_max: int) -> bool {
    a_min < b_min && a_max > b_min && a_max < b_max
}

/// The span `[a_min, a_max]` enters `[b_min, b_max]` across its high edge.
pub open spec fn crosses_high_edge(a_min: int, a_max: int, b_min: int, b_max: int) -> bool {
    a_min > b_min && a_min < b_max && a_max > b_max
}

/// The two spans overlap strictly.
pub open spec fn spans_overlap(a_min: int, a_max: int, b_min: int, b_max: int) -> bool {
    a_min < b_max && a_max > b_min
}

/// Which face of the second box the first box struck, and how deeply, along
/// one axis.  `low` names the face at the low coordinate (`Left` on the
/// x-axis, `Bottom` on the y-axis), `high` the opposite face.
pub open spec fn axis_hit(
    a_min: int,
    a_max: int,
    b_min: int,
    b_max: int,
    low: Collision,
    high: Collision,
) -> Option<(Collision, int)> {
    if crosses_low_edge(a_min, a_max, b_min, b_max) {
        Some((low, a_max - b_min))
    } else if crosses_high_edge(a_min, a_max, b_min, b_max) {
        Some((high, b_max - a_min))
    } else {
        None
    }
}

/// The collision classification: overlap test on both axes, then per-axis
/// face classification, then the deepest penetration wins (x-axis on ties).
pub open spec fn spec_collide(a_pos: Vec2, a_size: Vec2, b_pos: Vec2, b_size: Vec2) -> Option<
    Collision,
> {
    let a_min_x = a_pos.x - a_size.x / 2;
    let a_max_x = a_pos.x + a_size.x / 2;
    let a_min_y = a_pos.y - a_size.y / 2;
    let a_max_y = a_pos.y + a_size.y / 2;
    let b_min_x = b_pos.x - b_size.x / 2;
    let b_max_x = b_pos.x + b_size.x / 2;
    let b_min_y = b_pos.y - b_size.y / 2;
    let b_max_y = b_pos.y + b_size.y / 2;
    if spans_overlap(a_min_x, a_max_x, b_min_x, b_max_x) && spans_overlap(
        a_min_y,
        a_max_y,
        b_min_y,
        b_max_y,
    ) {
        let x_hit = axis_hit(a_min_x, a_max_x, b_min_x, b_max_x, Collision::Left, Collision::Right);
        let y_hit = axis_hit(a_min_y, a_max_y, b_min_y, b_max_y, Collision::Bottom, Collision::Top);
        match (x_hit, y_hit) {
            (Some((xc, x_pen)), Some((yc, y_pen))) => if y_pen > x_pen {
                Some(yc)
            } else {
                Some(xc)
            },
            (Some((xc, _)), None) => Some(xc),
            (None, Some((yc, _))) => Some(yc),
            (None, None) => None,
        }
    } else {
        None
    }
}

/// A box's center and size stay within the machine limits; a center may sit
/// one tick's travel beyond the general coordinate limit, so the ball can be
/// classified right after it has moved.
pub open spec fn box_in_range(pos: Vec2, size: Vec2) -> bool {
    &&& -(MAX_COORD + MAX_DISP) <= pos.x <= MAX_COORD + MAX_DISP
    &&& -(MAX_COORD + MAX_DISP) <= pos.y <= MAX_COORD + MAX_DISP
    &&& 0 <= size.x <= MAX_DIM
    &&& 0 <= size.y <= MAX_DIM
}

/// Classify the collision of box `a` with box `b`, each given by center and
/// size.
pub fn collide(a_pos: Vec2, a_size: Vec2, b_pos: Vec2, b_size: Vec2) -> (r: Option<Collision>)
    requires
        box_in_range(a_pos, a_size),
        box_in_range(b_pos, b_size),
    ensures
        r == spec_collide(a_pos, a_size, b_pos, b_size),
{
    let a_min_x = a_pos.x - half_nonneg(a_size.x);
    let a_max_x = a_pos.x + half_nonneg(a_size.x);
    let a_min_y = a_pos.y - half_nonneg(a_size.y);
    let a_max_y = a_pos.y + half_nonneg(a_size.y);
    let b_min_x = b_pos.x - half_nonneg(b_size.x);
    let b_max_x = b_pos.x + half_nonneg(b_size.x);
    let b_min_y = b_pos.y - half_nonneg(b_size.y);
    let b_max_y = b_pos.y + half_nonneg(b_size.y);
    if a_min_x < b_max_x && a_max_x > b_min_x && a_min_y < b_max_y && a_max_y > b_min_y {
        let x_hit: Option<(Collision, i64)> = if a_min_x < b_min_x && a_max_x > b_min_x && a_max_x
            < b_max_x {
            Some((Collision::Left, a_max_x - b_min_x))
        } else if a_min_x > b_min_x && a_min_x < b_max_x && a_max_x > b_max_x {
            Some((Collision::Right, b_max_x - a_min_x))
        } else {
            None
        };
        let y_hit: Option<(Collision, i64)> = if a_min_y < b_min_y && a_max_y > b_min_y && a_max_y
            < b_max_y {
            Some((Collision::Bottom, a_max_y - b_min_y))
        } else if a_min_y > b_min_y && a_min_y < b_max_y && a_max_y > b_max_y {
            Some((Collision::Top, b_max_y - a_min_y))
        } else {
            None
        };
        match (x_hit, y_hit) {
            (Some((xc, x_pen)), Some((yc, y_pen))) => if y_pen > x_pen {
                Some(yc)
            } else {
                Some(xc)
            },
            (Some((xc, _)), None) => Some(xc),
            (None, Some((yc, _))) => Some(yc),
            (None, None) => None,
        }
    } else {
        None
    }
}

} // verus!
