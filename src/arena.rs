//! The arena's fixed dimensions and its four walls.
//!
//! Lengths are fixed point: one arena unit is `STEPS_PER_UNIT` grid steps.
//! A velocity is the number of steps covered in one tick. With sixty ticks
//! per second that number is also the speed in thousandths of a unit per
//! second, so one tick of motion is always a whole number of steps.
use vstd::prelude::*;
use crate::geometry::Vector;

verus! {

/// Grid steps in one arena unit.
pub const STEPS_PER_UNIT: i64 = 60000;

/// Fixed ticks in one second.
pub const TICKS_PER_SECOND: i64 = 60;

pub const WALL_THICKNESS: i64 = 10 * STEPS_PER_UNIT;
pub const LEFT_WALL: i64 = -450 * STEPS_PER_UNIT;
pub const RIGHT_WALL: i64 = 450 * STEPS_PER_UNIT;
pub const BOTTOM_WALL: i64 = -300 * STEPS_PER_UNIT;
pub const TOP_WALL: i64 = 300 * STEPS_PER_UNIT;

pub const PADDLE_WIDTH: i64 = 10 * STEPS_PER_UNIT;
pub const PADDLE_HEIGHT: i64 = 45 * STEPS_PER_UNIT;
/// Horizontal distance from a side wall's center line to its paddle's center.
pub const WALL_TO_PADDLE_GAP: i64 = 15 * STEPS_PER_UNIT;

pub const BALL_SIZE: i64 = 30 * STEPS_PER_UNIT;
pub const BALL_START_X: i64 = 0;
pub const BALL_START_Y: i64 = -50 * STEPS_PER_UNIT;

/// Steps per tick at a speed of one unit per second
/// (`STEPS_PER_UNIT / TICKS_PER_SECOND`).
pub const STEPS_PER_TICK_AT_UNIT_SPEED: i64 = 1000;

/// Paddle speed in units per second, before the direction's magnitude.
pub const PADDLE_SPEED: i64 = 50;
/// Magnitude of the direction that one pressed key gives.
pub const DIRECTION_MAGNITUDE: i64 = 10;
/// Steps a paddle moves in one tick while exactly one key is held.
pub const PADDLE_STEP: i64 = DIRECTION_MAGNITUDE * PADDLE_SPEED * STEPS_PER_TICK_AT_UNIT_SPEED;

/// Highest center a paddle may reach: the top wall's inner face less half a
/// paddle's height, 272.5 units.
pub const PADDLE_UPPER_BOUND: i64 = 16350000;
/// Lowest center a paddle may reach: the bottom wall's inner face plus half a
/// paddle's height, -272.5 units.
pub const PADDLE_LOWER_BOUND: i64 = -16350000;

/// One of the four walls that enclose the arena.
#[derive(Clone, Copy, Debug, PartialEq, Eq, Structural)]
pub enum WallLocation {
    Left,
    Right,
    Bottom,
    Top,
}

pub open spec fn arena_width() -> int {
    RIGHT_WALL - LEFT_WALL
}

pub open spec fn arena_height() -> int {
    TOP_WALL - BOTTOM_WALL
}

/// Where a wall's center lies: on its boundary line, midway along the other axis.
pub open spec fn wall_position(loc: WallLocation) -> Vector {
    match loc {
        WallLocation::Left => Vector { x: LEFT_WALL, y: 0 },
        WallLocation::Right => Vector { x: RIGHT_WALL, y: 0 },
        WallLocation::Bottom => Vector { x: 0, y: BOTTOM_WALL },
        WallLocation::Top => Vector { x: 0, y: TOP_WALL },
    }
}

/// A wall's extent: one thickness across, and the arena's length plus one
/// thickness along, so that the walls close the corners.
pub open spec fn wall_size(loc: WallLocation) -> Vector {
    match loc {
        WallLocation::Left | WallLocation::Right => Vector {
            x: WALL_THICKNESS,
            y: (arena_height() + WALL_THICKNESS) as i64,
        },
        WallLocation::Bottom | WallLocation::Top => Vector {
            x: (arena_width() + WALL_THICKNESS) as i64,
            y: WALL_THICKNESS,
        },
    }
}

/// The paddle bounds are the walls' inner faces drawn in by half a paddle,
/// and one tick at one unit per second is a whole number of steps.
pub proof fn lemma_arena_constants()
    ensures
        2 * PADDLE_UPPER_BOUND == 2 * TOP_WALL - WALL_THICKNESS - PADDLE_HEIGHT,
        2 * PADDLE_LOWER_BOUND == 2 * BOTTOM_WALL + WALL_THICKNESS + PADDLE_HEIGHT,
        STEPS_PER_TICK_AT_UNIT_SPEED * TICKS_PER_SECOND == STEPS_PER_UNIT,
{
}

impl WallLocation {
    pub fn position(&self) -> (r: Vector)
        ensures
            r == wall_position(*self),
    {
        match self {
            WallLocation::Left => Vector { x: LEFT_WALL, y: 0 },
            WallLocation::Right => Vector { x: RIGHT_WALL, y: 0 },
            WallLocation::Bottom => Vector { x: 0, y: BOTTOM_WALL },
            WallLocation::Top => Vector { x: 0, y: TOP_WALL },
        }
    }

    pub fn size(&self) -> (r: Vector)
        ensures
            r == wall_size(*self),
            r.x > 0,
            r.y > 0,
    {
        let arena_height: i64 = TOP_WALL - BOTTOM_WALL;
        let arena_width: i64 = RIGHT_WALL - LEFT_WALL;
        assert(arena_height > 0);
        assert(arena_width > 0);
        match self {
            WallLocation::Left | WallLocation::Right => Vector {
                x: WALL_THICKNESS,
                y: arena_height + WALL_THICKNESS,
            },
            WallLocation::Bottom | WallLocation::Top => Vector {
                x: arena_width + WALL_THICKNESS,
                y: WALL_THICKNESS,
            },
        }
    }
}

} // verus!
