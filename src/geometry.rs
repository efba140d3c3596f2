//! Axis-aligned rectangles on the integer grid and the face on which two of
//! them touch.
use vstd::prelude::*;

verus! {

/// A point or an extent on the grid.
#[derive(Clone, Copy, Debug, PartialEq, Eq, Structural)]
pub struct Vector {
    pub x: i64,
    pub y: i64,
}

/// The face of the second rectangle that the first one has run into.
///
/// `Left` means the first rectangle came in from the left, so it touches the
/// second one's left face; `Inside` means no single face can be told apart.
#[derive(Clone, Copy, Debug, PartialEq, Eq, Structural)]
pub enum Collision {
    Left,
    Right,
    Top,
    Bottom,
    Inside,
}

/// Twice the lower edge of an interval with the given center and extent.
pub open spec fn low2(center: i64, extent: i64) -> int {
    2 * center - extent
}

/// Twice the upper edge of an interval with the given center and extent.
pub open spec fn high2(center: i64, extent: i64) -> int {
    2 * center + extent
}

/// The open intervals `a` and `b` (center and extent each) share a point.
pub open spec fn spans_overlap(a: i64, a_ext: i64, b: i64, b_ext: i64) -> bool {
    low2(a, a_ext) < high2(b, b_ext) && high2(a, a_ext) > low2(b, b_ext)
}

/// `a` sticks out past the low end of `b` and its high end lies strictly inside `b`.
pub open spec fn enters_low(a: i64, a_ext: i64, b: i64, b_ext: i64) -> bool {
    low2(a, a_ext) < low2(b, b_ext) && high2(a, a_ext) > low2(b, b_ext)
        && high2(a, a_ext) < high2(b, b_ext)
}

/// `a` sticks out past the high end of `b` and its low end lies strictly inside `b`.
pub open spec fn enters_high(a: i64, a_ext: i64, b: i64, b_ext: i64) -> bool {
    low2(a, a_ext) > low2(b, b_ext) && low2(a, a_ext) < high2(b, b_ext)
        && high2(a, a_ext) > high2(b, b_ext)
}

/// How far (doubled) `a` reaches into `b` on one axis, when it enters through
/// one end; `None` when it does not, which ranks as infinitely deep.
pub open spec fn depth2(a: i64, a_ext: i64, b: i64, b_ext: i64) -> Option<int> {
    if enters_low(a, a_ext, b, b_ext) {
        Some(high2(a, a_ext) - low2(b, b_ext))
    } else if enters_high(a, a_ext, b, b_ext) {
        Some(high2(b, b_ext) - low2(a, a_ext))
    } else {
        None
    }
}

/// The face struck on the horizontal axis alone.
pub open spec fn x_face(a_pos: Vector, a_size: Vector, b_pos: Vector, b_size: Vector) -> Collision {
    if enters_low(a_pos.x, a_size.x, b_pos.x, b_size.x) {
        Collision::Left
    } else if enters_high(a_pos.x, a_size.x, b_pos.x, b_size.x) {
        Collision::Right
    } else {
        Collision::Inside
    }
}

/// The face struck on the vertical axis alone.
pub open spec fn y_face(a_pos: Vector, a_size: Vector, b_pos: Vector, b_size: Vector) -> Collision {
    if enters_low(a_pos.y, a_size.y, b_pos.y, b_size.y) {
        Collision::Bottom
    } else if enters_high(a_pos.y, a_size.y, b_pos.y, b_size.y) {
        Collision::Top
    } else {
        Collision::Inside
    }
}

/// The vertical face wins when it is entered and its penetration is strictly
/// shallower than the horizontal one.
pub open spec fn y_wins(a_pos: Vector, a_size: Vector, b_pos: Vector, b_size: Vector) -> bool {
    match depth2(a_pos.y, a_size.y, b_pos.y, b_size.y) {
        Some(dy) => match depth2(a_pos.x, a_size.x, b_pos.x, b_size.x) {
            Some(dx) => dy < dx,
            None => true,
        },
        None => false,
    }
}

/// Whether rectangle `a` (center `a_pos`, full extent `a_size`) overlaps
/// rectangle `b`, and if so which face of `b` it struck.
pub open spec fn collision_of(a_pos: Vector, a_size: Vector, b_pos: Vector, b_size: Vector) -> Option<Collision> {
    if spans_overlap(a_pos.x, a_size.x, b_pos.x, b_size.x)
        && spans_overlap(a_pos.y, a_size.y, b_pos.y, b_size.y) {
        if y_wins(a_pos, a_size, b_pos, b_size) {
            Some(y_face(a_pos, a_size, b_pos, b_size))
        } else {
            Some(x_face(a_pos, a_size, b_pos, b_size))
        }
    } else {
        None
    }
}

/// The doubled low and high edges of one axis, computed without overflow.
fn edges2(center: i64, extent: i64) -> (r: (i128, i128))
    ensures
        r.0 == low2(center, extent),
        r.1 == high2(center, extent),
{
    let c = center as i128;
    let e = extent as i128;
    (2 * c - e, 2 * c + e)
}

/// The face entered on one axis (`-1` through the low end, `1` through the
/// high end, `0` neither) and the doubled depth when one was entered.
fn axis_entry(a: i64, a_ext: i64, b: i64, b_ext: i64) -> (r: (i8, i128))
    ensures
        r.0 == -1 <==> enters_low(a, a_ext, b, b_ext),
        r.0 == 1 <==> enters_high(a, a_ext, b, b_ext),
        r.0 == -1 || r.0 == 0 || r.0 == 1,
        r.0 != 0 ==> depth2(a, a_ext, b, b_ext) == Some(r.1 as int),
        r.0 == 0 ==> depth2(a, a_ext, b, b_ext) is None,
{
    let (a_lo, a_hi) = edges2(a, a_ext);
    let (b_lo, b_hi) = edges2(b, b_ext);
    if a_lo < b_lo && a_hi > b_lo && a_hi < b_hi {
        (-1, a_hi - b_lo)
    } else if a_lo > b_lo && a_lo < b_hi && a_hi > b_hi {
        (1, b_hi - a_lo)
    } else {
        (0, 0)
    }
}

/// Tests rectangle `a` against rectangle `b`: `None` when they do not
/// overlap, else the face of `b` that `a` struck, the axis of shallower
/// penetration winning when both axes have one.
pub fn collide(a_pos: Vector, a_size: Vector, b_pos: Vector, b_size: Vector) -> (r: Option<Collision>)
    ensures
        r == collision_of(a_pos, a_size, b_pos, b_size),
{
    let (ax_lo, ax_hi) = edges2(a_pos.x, a_size.x);
    let (ay_lo, ay_hi) = edges2(a_pos.y, a_size.y);
    let (bx_lo, bx_hi) = edges2(b_pos.x, b_size.x);
    let (by_lo, by_hi) = edges2(b_pos.y, b_size.y);
    if !(ax_lo < bx_hi && ax_hi > bx_lo && ay_lo < by_hi && ay_hi > by_lo) {
        return None;
    }
    let (x_side, x_depth) = axis_entry(a_pos.x, a_size.x, b_pos.x, b_size.x);
    let (y_side, y_depth) = axis_entry(a_pos.y, a_size.y, b_pos.y, b_size.y);
    let take_y = y_side != 0 && (x_side == 0 || y_depth < x_depth);
    if take_y {
        if y_side < 0 {
            Some(Collision::Bottom)
        } else {
            Some(Collision::Top)
        }
    } else if x_side < 0 {
        Some(Collision::Left)
    } else if x_side > 0 {
        Some(Collision::Right)
    } else {
        Some(Collision::Inside)
    }
}

} // verus!
