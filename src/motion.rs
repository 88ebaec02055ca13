//! The motion model shared by fish and sharks: a step along one axis, then a
//! bounce off the ends of that axis.
use vstd::prelude::*;

verus! {

/// One cell, in the fixed-point unit of positions and speeds.
pub const UNIT: i64 = 100;

/// The bound on every coordinate that an entity holds.
pub const COORD_LIMIT: i64 = 10_000_000;

/// The bound on every speed that an entity holds.
pub const SPEED_LIMIT: i64 = 100;

/// Whether `d` is a direction: `1` (right, or down) or `-1` (left, or up).
pub open spec fn is_direction(d: int) -> bool {
    d == 1 || d == -1
}

/// Whether a coordinate is in the range that entities keep to.
pub open spec fn coord_ok(v: int) -> bool {
    -COORD_LIMIT <= v <= COORD_LIMIT
}

/// Position and direction after a move to `moved` along an axis with ends
/// `lo` and `hi`: at or past `lo` the entity stops at `lo` and turns forward;
/// else at or past `hi` it stops at `hi` and turns back; else it keeps on.
pub open spec fn reflect(moved: int, dir: int, lo: int, hi: int) -> (int, int) {
    if moved <= lo {
        (lo, 1)
    } else if moved >= hi {
        (hi, -1)
    } else {
        (moved, dir)
    }
}

/// The end of an axis at `cells` cells less `less` cells.
pub open spec fn axis_end(cells: int, less: int) -> int {
    (cells - less) * UNIT
}

/// `axis_end`, for a viewport extent and a width of at most a few cells.
pub fn axis_end_of(cells: u16, less: i64) -> (r: i64)
    requires
        0 <= less <= 100,
    ensures
        r == axis_end(cells as int, less as int),
        coord_ok(r as int),
{
    (cells as i64 - less) * UNIT
}

/// Moves `pos` by `speed` in direction `dir`, then bounces it off `lo` and `hi`.
pub fn reflect_axis(pos: i64, dir: i32, speed: i64, lo: i64, hi: i64) -> (r: (i64, i32))
    requires
        coord_ok(pos as int),
        coord_ok(lo as int),
        coord_ok(hi as int),
        0 <= speed <= SPEED_LIMIT,
        is_direction(dir as int),
    ensures
        (r.0 as int, r.1 as int) == reflect(pos + speed * dir, dir as int, lo as int, hi as int),
        coord_ok(r.0 as int),
        is_direction(r.1 as int),
{
    let moved = if dir == 1 {
        pos + speed
    } else {
        pos - speed
    };
    if moved <= lo {
        (lo, 1)
    } else if moved >= hi {
        (hi, -1)
    } else {
        (moved, dir)
    }
}

/// Whatever position an entity had, a step leaves it between the ends of the
/// axis, and one that reached the near end faces forward there.
pub proof fn lemma_reflect_in_range(moved: int, dir: int, lo: int, hi: int)
    ensures
        lo <= hi ==> lo <= reflect(moved, dir, lo, hi).0 <= hi,
        moved <= lo ==> reflect(moved, dir, lo, hi) == (lo, 1int),
{
}

} // verus!
