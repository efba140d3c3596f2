//! Bouncing a velocity off a struck face, and the paddle's clamped step.
use vstd::prelude::*;
use crate::arena::{PADDLE_LOWER_BOUND, PADDLE_STEP, PADDLE_UPPER_BOUND};
use crate::geometry::{Collision, Vector};

verus! {

/// The velocity after striking `face`: the component across that face is
/// negated when it points into the face, and kept when it already points away.
pub open spec fn reflected(v: Vector, face: Collision) -> Vector {
    match face {
        Collision::Left => if v.x > 0 { Vector { x: -v.x as i64, y: v.y } } else { v },
        Collision::Right => if v.x < 0 { Vector { x: -v.x as i64, y: v.y } } else { v },
        Collision::Top => if v.y < 0 { Vector { x: v.x, y: -v.y as i64 } } else { v },
        Collision::Bottom => if v.y > 0 { Vector { x: v.x, y: -v.y as i64 } } else { v },
        Collision::Inside => v,
    }
}

/// The velocity already points away from `face` (or the face is `Inside`).
pub open spec fn leaves_face(v: Vector, face: Collision) -> bool {
    match face {
        Collision::Left => v.x <= 0,
        Collision::Right => v.x >= 0,
        Collision::Top => v.y >= 0,
        Collision::Bottom => v.y <= 0,
        Collision::Inside => true,
    }
}

/// Squared length of a vector.
pub open spec fn speed_squared(v: Vector) -> int {
    v.x * v.x + v.y * v.y
}

/// Negating a component is defined for every value but the most negative one.
pub open spec fn negatable(v: Vector) -> bool {
    v.x > i64::MIN && v.y > i64::MIN
}

/// Bounces velocity `v` off the struck `face`.
pub fn reflect(v: Vector, face: Collision) -> (r: Vector)
    requires
        negatable(v),
    ensures
        r == reflected(v, face),
        negatable(r),
{
    match face {
        Collision::Left => if v.x > 0 { Vector { x: -v.x, y: v.y } } else { v },
        Collision::Right => if v.x < 0 { Vector { x: -v.x, y: v.y } } else { v },
        Collision::Top => if v.y < 0 { Vector { x: v.x, y: -v.y } } else { v },
        Collision::Bottom => if v.y > 0 { Vector { x: v.x, y: -v.y } } else { v },
        Collision::Inside => v,
    }
}

/// A bounce keeps the speed: at most one component changes, and that one
/// only by its sign.
pub proof fn lemma_reflection_conserves_speed(v: Vector, face: Collision)
    requires
        negatable(v),
    ensures
        speed_squared(reflected(v, face)) == speed_squared(v),
        (reflected(v, face).x == v.x && (reflected(v, face).y == v.y || reflected(v, face).y == -v.y))
            || (reflected(v, face).y == v.y && reflected(v, face).x == -v.x),
{
    let x = v.x as int;
    let y = v.y as int;
    assert((-x) * (-x) == x * x) by (nonlinear_arith);
    assert((-y) * (-y) == y * y) by (nonlinear_arith);
}

/// A velocity that already points away from the struck face is not bounced,
/// so checking the same face again changes nothing.
pub proof fn lemma_no_double_reflection(v: Vector, face: Collision)
    requires
        negatable(v),
    ensures
        leaves_face(v, face) ==> reflected(v, face) == v,
        leaves_face(reflected(v, face), face),
        reflected(reflected(v, face), face) == reflected(v, face),
{
}

/// The vertical direction that the keys ask for: up and down cancel.
pub open spec fn key_direction(up: bool, down: bool) -> int {
    (if up { 1int } else { 0int }) - (if down { 1int } else { 0int })
}

/// `p` held to the closed interval between the paddle bounds.
pub open spec fn clamp_to_paddle_bounds(p: int) -> int {
    if p < PADDLE_LOWER_BOUND {
        PADDLE_LOWER_BOUND as int
    } else if p > PADDLE_UPPER_BOUND {
        PADDLE_UPPER_BOUND as int
    } else {
        p
    }
}

/// The paddle center one tick after `y` with the given keys held.
pub open spec fn paddle_target_of(y: i64, up: bool, down: bool) -> int {
    clamp_to_paddle_bounds(y + key_direction(up, down) * PADDLE_STEP)
}

/// The paddle center one tick after `y`: one step up or down as the keys
/// say, then held between the paddle bounds.
pub fn paddle_target(y: i64, up: bool, down: bool) -> (r: i64)
    ensures
        r == paddle_target_of(y, up, down),
        PADDLE_LOWER_BOUND <= r <= PADDLE_UPPER_BOUND,
        y + key_direction(up, down) * PADDLE_STEP < PADDLE_LOWER_BOUND ==> r == PADDLE_LOWER_BOUND,
        y + key_direction(up, down) * PADDLE_STEP > PADDLE_UPPER_BOUND ==> r == PADDLE_UPPER_BOUND,
        PADDLE_LOWER_BOUND <= y + key_direction(up, down) * PADDLE_STEP <= PADDLE_UPPER_BOUND
            ==> r == y + key_direction(up, down) * PADDLE_STEP,
{
    let mut direction: i128 = 0;
    if up {
        direction = direction + 1;
    }
    if down {
        direction = direction - 1;
    }
    let moved: i128 = y as i128 + direction * (PADDLE_STEP as i128);
    if moved < PADDLE_LOWER_BOUND as i128 {
        PADDLE_LOWER_BOUND
    } else if moved > PADDLE_UPPER_BOUND as i128 {
        PADDLE_UPPER_BOUND
    } else {
        moved as i64
    }
}

} // verus!
