use bevy::math::{Vec2, Vec3};
use bevy::sprite::collide_aabb::{collide as aabb, Collision as Side};
use pong::geometry::{collide, Collision, Vector};

fn v(x: i64, y: i64) -> Vector {
    Vector { x, y }
}

#[test]
fn apart_rectangles_do_not_collide() {
    assert_eq!(collide(v(0, 0), v(4, 4), v(10, 0), v(4, 4)), None);
    assert_eq!(collide(v(0, 0), v(4, 4), v(0, 10), v(4, 4)), None);
}

#[test]
fn touching_edges_do_not_collide() {
    // Edges meet at x = 2 but the open rectangles share no point.
    assert_eq!(collide(v(0, 0), v(4, 4), v(4, 0), v(4, 4)), None);
}

#[test]
fn equal_and_nested_rectangles_are_inside() {
    assert_eq!(collide(v(5, 5), v(6, 6), v(5, 5), v(6, 6)), Some(Collision::Inside));
    assert_eq!(collide(v(5, 5), v(2, 2), v(5, 5), v(6, 6)), Some(Collision::Inside));
    assert_eq!(collide(v(5, 5), v(6, 6), v(5, 5), v(2, 2)), Some(Collision::Inside));
}

#[test]
fn each_face_is_reported() {
    assert_eq!(collide(v(7, 10), v(10, 10), v(10, 10), v(10, 10)), Some(Collision::Left));
    assert_eq!(collide(v(13, 10), v(10, 10), v(10, 10), v(10, 10)), Some(Collision::Right));
    assert_eq!(collide(v(10, 13), v(10, 10), v(10, 10), v(10, 10)), Some(Collision::Top));
    assert_eq!(collide(v(10, 7), v(10, 10), v(10, 10), v(10, 10)), Some(Collision::Bottom));
}

#[test]
fn equal_depths_prefer_the_horizontal_face() {
    assert_eq!(collide(v(7, 7), v(10, 10), v(10, 10), v(10, 10)), Some(Collision::Left));
    assert_eq!(collide(v(13, 13), v(10, 10), v(10, 10), v(10, 10)), Some(Collision::Right));
}

#[test]
fn shallower_axis_decides_the_face() {
    // Horizontal penetration 8, vertical 2: the vertical face is struck.
    assert_eq!(collide(v(8, 18), v(10, 10), v(10, 10), v(10, 10)), Some(Collision::Top));
    // Horizontal penetration 2, vertical 8: the horizontal face is struck.
    assert_eq!(collide(v(18, 8), v(10, 10), v(10, 10), v(10, 10)), Some(Collision::Right));
}

#[test]
fn odd_extents_are_exact() {
    // Half extents of 1.5 and 0.5: edges meet at 1.5 exactly.
    assert_eq!(collide(v(0, 0), v(3, 3), v(2, 0), v(1, 3)), None);
    assert_eq!(collide(v(0, 0), v(3, 3), v(1, 0), v(1, 5)), Some(Collision::Inside));
}

#[test]
fn extreme_coordinates_do_not_overflow() {
    assert_eq!(
        collide(v(i64::MAX, i64::MAX), v(i64::MAX, i64::MAX), v(i64::MIN, i64::MIN), v(4, 4)),
        None
    );
    assert_eq!(
        collide(v(i64::MAX, 0), v(4, 4), v(i64::MAX, 0), v(4, 4)),
        Some(Collision::Inside)
    );
}

fn engine_collide(a_pos: Vector, a_size: Vector, b_pos: Vector, b_size: Vector) -> Option<Collision> {
    let side = aabb(
        Vec3::new(a_pos.x as f32, a_pos.y as f32, 0.0),
        Vec2::new(a_size.x as f32, a_size.y as f32),
        Vec3::new(b_pos.x as f32, b_pos.y as f32, 0.0),
        Vec2::new(b_size.x as f32, b_size.y as f32),
    );
    side.map(|s| match s {
        Side::Left => Collision::Left,
        Side::Right => Collision::Right,
        Side::Top => Collision::Top,
        Side::Bottom => Collision::Bottom,
        Side::Inside => Collision::Inside,
    })
}

#[test]
fn agrees_with_the_engine_on_small_grids() {
    // Small integers and their halves are exact in f32, so both must agree.
    let b_pos = v(0, 0);
    for b_size in [v(4, 4), v(3, 5), v(6, 2)] {
        for a_size in [v(2, 2), v(3, 1), v(4, 6), v(8, 8)] {
            for ax in -7..=7 {
                for ay in -7..=7 {
                    let a_pos = v(ax, ay);
                    assert_eq!(
                        collide(a_pos, a_size, b_pos, b_size),
                        engine_collide(a_pos, a_size, b_pos, b_size),
                        "a at ({}, {}) size {:?}, b size {:?}",
                        ax,
                        ay,
                        a_size,
                        b_size
                    );
                }
            }
        }
    }
}
