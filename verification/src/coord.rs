//! Board coordinates and wrap-around normalization.

use vstd::prelude::*;

verus! {

/// A board cell, identified by a pair of signed integers. Copied by value.
#[derive(Clone, Copy, Debug, PartialEq, Eq, Structural)]
pub struct Vector2 {
    pub x: i32,
    pub y: i32,
}

impl Vector2 {
    pub fn new(x: i32, y: i32) -> (v: Vector2)
        ensures
            v.x == x,
            v.y == y,
    {
        Vector2 { x, y }
    }
}

/// Whether a cell lies on the board of the given extents.
pub open spec fn on_board(v: Vector2, width: int, height: int) -> bool {
    0 <= v.x < width && 0 <= v.y < height
}

/// One-step wrap of an axis value onto `[0, extent)`: a negative value wraps
/// to `extent - 1`, a value at or past `extent` wraps to `0`, and a value
/// already in range is left alone.
pub open spec fn wrap_spec(x: int, extent: int) -> int {
    if x < 0 {
        extent - 1
    } else if x >= extent {
        0
    } else {
        x
    }
}

/// Wraps one axis of a coordinate onto the board extent.
pub fn wrap(x: i32, extent: i32) -> (r: i32)
    requires
        1 <= extent,
    ensures
        r == wrap_spec(x as int, extent as int),
        0 <= r < extent,
{
    if x < 0 {
        extent - 1
    } else if x >= extent {
        0
    } else {
        x
    }
}

/// Wrap-around sends `-1` to `extent - 1` and `extent` to `0`, is the
/// identity on values already in `[0, extent)`, and is idempotent.
pub proof fn lemma_wrap_around(extent: int)
    requires
        1 <= extent,
    ensures
        wrap_spec(-1, extent) == extent - 1,
        wrap_spec(extent, extent) == 0,
        forall|x: int| 0 <= x < extent ==> wrap_spec(x, extent) == x,
        forall|x: int| wrap_spec(wrap_spec(x, extent), extent) == wrap_spec(x, extent),
{
}

} // verus!
