use pong::arena::{WallLocation, PADDLE_UPPER_BOUND, STEPS_PER_UNIT};
use pong::geometry::Vector;
use pong::world::{CollisionEvent, Entity, Role, World};

const START_VELOCITY: Vector = Vector { x: 282843, y: -282843 };

fn ball(world: &World) -> Entity {
    world.entities()[world.single(Role::Ball)]
}

fn player(world: &World) -> Entity {
    world.entities()[world.single(Role::Player)]
}

#[test]
fn walls_are_laid_out_from_the_arena_constants() {
    let u = STEPS_PER_UNIT;
    assert_eq!(WallLocation::Left.position(), Vector { x: -450 * u, y: 0 });
    assert_eq!(WallLocation::Left.size(), Vector { x: 10 * u, y: 610 * u });
    assert_eq!(WallLocation::Top.position(), Vector { x: 0, y: 300 * u });
    assert_eq!(WallLocation::Top.size(), Vector { x: 910 * u, y: 10 * u });
    assert_eq!(WallLocation::Right.position(), Vector { x: 450 * u, y: 0 });
    assert_eq!(WallLocation::Bottom.size(), Vector { x: 910 * u, y: 10 * u });
    let wall = Entity::wall(WallLocation::Right);
    assert_eq!(wall.role, Role::Wall);
    assert!(wall.collider);
    assert_eq!(wall.velocity, None);
    assert_eq!(wall.size, Vector { x: 10 * u, y: 610 * u });
}

#[test]
fn startup_spawns_paddles_ball_and_walls() {
    let u = STEPS_PER_UNIT;
    let world = World::new(START_VELOCITY);
    let all = world.entities();
    assert_eq!(all.len(), 7);
    assert_eq!(all[0].role, Role::Player);
    assert_eq!(all[0].position, Vector { x: -435 * u, y: 0 });
    assert_eq!(all[1].role, Role::Bot);
    assert_eq!(all[1].position, Vector { x: 435 * u, y: 0 });
    assert_eq!(all[1].size, Vector { x: 10 * u, y: 45 * u });
    assert_eq!(all[2].role, Role::Ball);
    assert_eq!(all[2].position, Vector { x: 0, y: -50 * u });
    assert_eq!(all[2].velocity, Some(START_VELOCITY));
    assert!(!all[2].collider);
    assert_eq!(all[3], Entity::wall(WallLocation::Left));
    assert_eq!(all[6], Entity::wall(WallLocation::Top));
    assert_eq!(world.single(Role::Ball), 2);
}

#[test]
fn one_tick_moves_the_ball_by_its_velocity() {
    let mut world = World::new(START_VELOCITY);
    let mut events: Vec<CollisionEvent> = Vec::new();
    assert!(world.integration_fits());
    world.tick(false, false, &mut events);
    assert!(events.is_empty());
    let b = ball(&world);
    assert_eq!(b.position, Vector { x: 282843, y: -50 * STEPS_PER_UNIT - 282843 });
    assert_eq!(b.velocity, Some(START_VELOCITY));
    let x = b.position.x as f64 / STEPS_PER_UNIT as f64;
    let y = b.position.y as f64 / STEPS_PER_UNIT as f64;
    assert!((x - 4.71).abs() < 0.01);
    assert!((y + 54.71).abs() < 0.01);
}

#[test]
fn ball_bounces_off_the_left_face_of_the_right_wall() {
    let mut world = World::new(Vector { x: 282843, y: 1000 });
    let mut events: Vec<CollisionEvent> = Vec::new();
    for _ in 0..91 {
        world.tick(false, false, &mut events);
    }
    assert!(events.is_empty());
    assert_eq!(ball(&world).velocity, Some(Vector { x: 282843, y: 1000 }));
    // The ball's right edge passes x = 445 units, the right wall's left face.
    world.tick(false, false, &mut events);
    assert_eq!(events.len(), 1);
    assert_eq!(ball(&world).velocity, Some(Vector { x: -282843, y: 1000 }));
    // Checked again where it stands, now moving away: no second bounce.
    world.check_for_collisions(&mut events);
    assert_eq!(events.len(), 2);
    assert_eq!(ball(&world).velocity, Some(Vector { x: -282843, y: 1000 }));
}

#[test]
fn ball_bounces_off_the_bottom_wall() {
    let mut world = World::new(START_VELOCITY);
    let mut events: Vec<CollisionEvent> = Vec::new();
    let mut ticks = 0;
    while events.is_empty() {
        world.tick(false, false, &mut events);
        ticks += 1;
    }
    // The ball's lower edge passes y = -295 units on the 49th tick.
    assert_eq!(ticks, 49);
    assert_eq!(events.len(), 1);
    assert_eq!(ball(&world).velocity, Some(Vector { x: 282843, y: 282843 }));
}

#[test]
fn held_key_moves_the_player_up_to_its_bound() {
    let mut world = World::new(START_VELOCITY);
    world.move_player(true, false);
    assert_eq!(player(&world).position.y, 500000);
    world.move_player(true, true);
    assert_eq!(player(&world).position.y, 500000);
    for _ in 0..40 {
        world.move_player(true, false);
    }
    assert_eq!(player(&world).position.y, PADDLE_UPPER_BOUND);
    assert_eq!(player(&world).position.x, -435 * STEPS_PER_UNIT);
    world.move_player(false, true);
    assert_eq!(player(&world).position.y, PADDLE_UPPER_BOUND - 500000);
}

#[test]
fn integration_moves_only_the_ball() {
    let mut world = World::new(START_VELOCITY);
    let before = world.entities().clone();
    world.apply_velocity();
    let after = world.entities();
    for i in 0..7 {
        if i == 2 {
            assert_eq!(after[i].position, Vector { x: 282843, y: -3282843 });
        } else {
            assert_eq!(after[i], before[i]);
        }
    }
}

#[test]
fn collision_check_without_overlap_changes_nothing() {
    let mut world = World::new(START_VELOCITY);
    let before = world.entities().clone();
    let mut events: Vec<CollisionEvent> = vec![CollisionEvent];
    world.check_for_collisions(&mut events);
    assert_eq!(events.len(), 1);
    assert_eq!(world.entities(), &before);
}

#[test]
fn integration_off_the_grid_is_detected() {
    let world = World::new(Vector { x: i64::MAX, y: 0 });
    assert!(world.integration_fits());
    let world = World::new(Vector { x: 0, y: i64::MIN + 1 });
    assert!(!world.integration_fits());
}
