//! The entity registry and the systems that advance it by one fixed tick.
use vstd::prelude::*;
use crate::arena::{
    wall_position, wall_size, WallLocation, BALL_SIZE, BALL_START_X, BALL_START_Y, LEFT_WALL,
    PADDLE_HEIGHT, PADDLE_LOWER_BOUND, PADDLE_UPPER_BOUND, PADDLE_WIDTH, RIGHT_WALL,
    WALL_TO_PADDLE_GAP,
};
use crate::geometry::{collide, collision_of, Collision, Vector};
use crate::motion::{negatable, paddle_target, paddle_target_of, reflect, reflected};

verus! {

/// What an entity is; each entity has exactly one role.
#[derive(Clone, Copy, Debug, PartialEq, Eq, Structural)]
pub enum Role {
    Player,
    Bot,
    Ball,
    Wall,
}

/// One simulated object: its role, its rectangle (center and full extent),
/// its velocity if it moves on its own, and whether the ball collides with it.
#[derive(Clone, Copy, Debug, PartialEq, Eq, Structural)]
pub struct Entity {
    pub role: Role,
    pub position: Vector,
    pub size: Vector,
    pub velocity: Option<Vector>,
    pub collider: bool,
}

/// Notice that the ball struck a collider; one is sent for each collider hit.
#[derive(Clone, Copy, Debug, PartialEq, Eq, Structural)]
pub struct CollisionEvent;

impl Entity {
    /// The static collider for the given wall.
    pub fn wall(location: WallLocation) -> (r: Entity)
        ensures
            r == wall_start(location),
    {
        Entity {
            role: Role::Wall,
            position: location.position(),
            size: location.size(),
            velocity: None,
            collider: true,
        }
    }
}

/// The player's paddle as it starts, near the left wall.
pub open spec fn player_start() -> Entity {
    Entity {
        role: Role::Player,
        position: Vector { x: (LEFT_WALL + WALL_TO_PADDLE_GAP) as i64, y: 0 },
        size: Vector { x: PADDLE_WIDTH, y: PADDLE_HEIGHT },
        velocity: None,
        collider: true,
    }
}

/// The second paddle, near the right wall; nothing moves it.
pub open spec fn bot_start() -> Entity {
    Entity {
        role: Role::Bot,
        position: Vector { x: (RIGHT_WALL - WALL_TO_PADDLE_GAP) as i64, y: 0 },
        size: Vector { x: PADDLE_WIDTH, y: PADDLE_HEIGHT },
        velocity: None,
        collider: true,
    }
}

/// The ball at its starting point with the given velocity.
pub open spec fn ball_start(velocity: Vector) -> Entity {
    Entity {
        role: Role::Ball,
        position: Vector { x: BALL_START_X, y: BALL_START_Y },
        size: Vector { x: BALL_SIZE, y: BALL_SIZE },
        velocity: Some(velocity),
        collider: false,
    }
}

/// The collider for one wall; walls never move.
pub open spec fn wall_start(location: WallLocation) -> Entity {
    Entity {
        role: Role::Wall,
        position: wall_position(location),
        size: wall_size(location),
        velocity: None,
        collider: true,
    }
}

/// The registry as it stands after startup.
pub open spec fn startup_entities(ball_velocity: Vector) -> Seq<Entity> {
    seq![
        player_start(),
        bot_start(),
        ball_start(ball_velocity),
        wall_start(WallLocation::Left),
        wall_start(WallLocation::Right),
        wall_start(WallLocation::Bottom),
        wall_start(WallLocation::Top),
    ]
}

/// `i` is the one index of `s` whose entity has role `r`.
pub open spec fn is_only(s: Seq<Entity>, r: Role, i: int) -> bool {
    &&& 0 <= i < s.len()
    &&& s[i].role == r
    &&& forall|j: int| 0 <= j < s.len() && s[j].role == r ==> j == i
}

/// Exactly one entity of `s` has role `r`.
pub open spec fn has_one(s: Seq<Entity>, r: Role) -> bool {
    exists|i: int| is_only(s, r, i)
}

/// The registry's invariant: one ball, one player, one bot; only the ball
/// has a velocity, and it is no collider; the player stays between the
/// paddle bounds.
pub open spec fn well_formed(s: Seq<Entity>) -> bool {
    &&& has_one(s, Role::Ball)
    &&& has_one(s, Role::Player)
    &&& has_one(s, Role::Bot)
    &&& forall|i: int| 0 <= i < s.len() ==> (#[trigger] s[i].velocity is Some <==> s[i].role == Role::Ball)
    &&& forall|i: int| 0 <= i < s.len() && #[trigger] s[i].role == Role::Ball
        ==> !s[i].collider && negatable(s[i].velocity->Some_0)
    &&& forall|i: int| 0 <= i < s.len() && #[trigger] s[i].role == Role::Player
        ==> PADDLE_LOWER_BOUND <= s[i].position.y <= PADDLE_UPPER_BOUND
}

/// `e` moved by one tick of its velocity, if it has one.
pub open spec fn advanced(e: Entity) -> Entity {
    match e.velocity {
        Some(v) => Entity {
            position: Vector { x: (e.position.x + v.x) as i64, y: (e.position.y + v.y) as i64 },
            ..e
        },
        None => e,
    }
}

/// One tick of motion fits the coordinates of `e`.
pub open spec fn advance_fits(e: Entity) -> bool {
    match e.velocity {
        Some(v) => i64::MIN <= e.position.x + v.x <= i64::MAX
            && i64::MIN <= e.position.y + v.y <= i64::MAX,
        None => true,
    }
}

pub open spec fn integration_fits_in(s: Seq<Entity>) -> bool {
    forall|i: int| 0 <= i < s.len() ==> advance_fits(#[trigger] s[i])
}

/// Every entity moved by one tick of its velocity.
pub open spec fn integrated(s: Seq<Entity>) -> Seq<Entity> {
    Seq::new(s.len(), |i: int| advanced(s[i]))
}

/// The registry after the player's paddle has taken its step for the keys.
pub open spec fn player_moved(s: Seq<Entity>, up: bool, down: bool) -> Seq<Entity> {
    Seq::new(
        s.len(),
        |i: int|
            if s[i].role == Role::Player {
                Entity {
                    position: Vector {
                        x: s[i].position.x,
                        y: paddle_target_of(s[i].position.y, up, down) as i64,
                    },
                    ..s[i]
                }
            } else {
                s[i]
            },
    )
}

/// The face of `e` that `ball` strikes, if `e` is a collider that it overlaps.
pub open spec fn hit_on(ball: Entity, e: Entity) -> Option<Collision> {
    if e.collider {
        collision_of(ball.position, ball.size, e.position, e.size)
    } else {
        None
    }
}

/// The velocity `v` after bouncing off each collider among the first `n`
/// entities of `s` that `ball` overlaps, in registry order.
pub open spec fn bounced_through(s: Seq<Entity>, ball: Entity, v: Vector, n: nat) -> Vector
    decreases n,
{
    if n == 0 || n > s.len() {
        v
    } else {
        let before = bounced_through(s, ball, v, (n - 1) as nat);
        match hit_on(ball, s[n - 1]) {
            Some(face) => reflected(before, face),
            None => before,
        }
    }
}

/// How many of the first `n` entities of `s` are colliders that `ball` overlaps.
pub open spec fn hits_among(s: Seq<Entity>, ball: Entity, n: nat) -> nat
    decreases n,
{
    if n == 0 || n > s.len() {
        0
    } else {
        hits_among(s, ball, (n - 1) as nat) + if hit_on(ball, s[n - 1]) is Some {
            1nat
        } else {
            0nat
        }
    }
}

/// The ball of a well-formed registry.
pub open spec fn ball_of(s: Seq<Entity>) -> Entity {
    s[choose|i: int| is_only(s, Role::Ball, i)]
}

/// How many colliders the ball of `s` overlaps: one event is sent for each.
pub open spec fn hit_count(s: Seq<Entity>) -> nat {
    hits_among(s, ball_of(s), s.len())
}

/// The registry after the ball has bounced off every collider it overlaps.
pub open spec fn collisions_resolved(s: Seq<Entity>) -> Seq<Entity> {
    Seq::new(
        s.len(),
        |i: int|
            if s[i].role == Role::Ball {
                Entity { velocity: Some(bounced_through(s, s[i], s[i].velocity->Some_0, s.len())), ..s[i] }
            } else {
                s[i]
            },
    )
}

/// The registry after one whole tick: motion, then the paddle, then collisions.
pub open spec fn ticked(s: Seq<Entity>, up: bool, down: bool) -> Seq<Entity> {
    collisions_resolved(player_moved(integrated(s), up, down))
}

/// The registry after `n` ticks of motion alone.
pub open spec fn integrated_times(s: Seq<Entity>, n: nat) -> Seq<Entity>
    decreases n,
{
    if n == 0 {
        s
    } else {
        integrated(integrated_times(s, (n - 1) as nat))
    }
}

/// `k` ticks of its velocity keep `e` on the grid.
pub open spec fn on_grid_after(e: Entity, k: int) -> bool {
    match e.velocity {
        Some(v) => i64::MIN <= e.position.x + k * v.x <= i64::MAX
            && i64::MIN <= e.position.y + k * v.y <= i64::MAX,
        None => true,
    }
}

/// `after` is `e` moved by `n` times its velocity, with nothing else changed.
pub open spec fn moved_linearly(e: Entity, after: Entity, n: int) -> bool {
    match e.velocity {
        Some(v) => after == (Entity {
            position: Vector { x: (e.position.x + n * v.x) as i64, y: (e.position.y + n * v.y) as i64 },
            ..e
        }),
        None => after == e,
    }
}

/// Motion is linear: with nothing else acting, `n` ticks move each entity by
/// `n` times its velocity, as long as every intermediate position is on the grid.
pub proof fn lemma_integration_is_linear(s: Seq<Entity>, n: nat)
    requires
        forall|i: int, k: int| 0 <= i < s.len() && 0 <= k <= n ==> #[trigger] on_grid_after(s[i], k),
    ensures
        integrated_times(s, n).len() == s.len(),
        forall|i: int| 0 <= i < s.len() ==> moved_linearly(s[i], #[trigger] integrated_times(s, n)[i], n as int),
    decreases n,
{
    if n > 0 {
        let m = (n - 1) as nat;
        lemma_integration_is_linear(s, m);
        let prev = integrated_times(s, m);
        assert forall|i: int| 0 <= i < s.len() implies moved_linearly(s[i], #[trigger] integrated_times(s, n)[i], n as int) by {
            assert(moved_linearly(s[i], prev[i], m as int));
            assert(on_grid_after(s[i], m as int));
            assert(on_grid_after(s[i], n as int));
            match s[i].velocity {
                Some(v) => {
                    assert(m * v.x + v.x == n * v.x) by (nonlinear_arith)
                        requires m + 1 == n;
                    assert(m * v.y + v.y == n * v.y) by (nonlinear_arith)
                        requires m + 1 == n;
                },
                None => {},
            }
        }
    }
}

/// With no collider hit, bouncing leaves the velocity as it was.
proof fn lemma_no_hits_no_bounce(s: Seq<Entity>, ball: Entity, v: Vector, n: nat)
    requires
        n <= s.len(),
        hits_among(s, ball, n) == 0,
    ensures
        bounced_through(s, ball, v, n) == v,
    decreases n,
{
    if n > 0 {
        lemma_no_hits_no_bounce(s, ball, v, (n - 1) as nat);
    }
}

/// In one tick the ball moves by exactly its velocity, whatever it strikes;
/// a tick in which it strikes nothing leaves its velocity unchanged.
pub proof fn lemma_tick_moves_ball(s: Seq<Entity>, up: bool, down: bool, b: int)
    requires
        well_formed(s),
        integration_fits_in(s),
        is_only(s, Role::Ball, b),
    ensures
        is_only(ticked(s, up, down), Role::Ball, b),
        ticked(s, up, down)[b].position.x == s[b].position.x + s[b].velocity->Some_0.x,
        ticked(s, up, down)[b].position.y == s[b].position.y + s[b].velocity->Some_0.y,
        hit_count(player_moved(integrated(s), up, down)) == 0
            ==> ticked(s, up, down)[b].velocity == s[b].velocity,
{
    let t = player_moved(integrated(s), up, down);
    assert(advance_fits(s[b]));
    assert(is_only(t, Role::Ball, b));
    assert(ball_of(t) == t[b]);
    if hit_count(t) == 0 {
        lemma_no_hits_no_bounce(t, t[b], t[b].velocity->Some_0, t.len());
    }
}

/// All entities of the game, kept well formed.
pub struct World {
    entities: Vec<Entity>,
}

impl View for World {
    type V = Seq<Entity>;

    closed spec fn view(&self) -> Seq<Entity> {
        self.entities@
    }
}

impl World {
    pub open spec fn wf(&self) -> bool {
        well_formed(self@)
    }

    /// The entities, in registry order.
    pub fn entities(&self) -> (r: &Vec<Entity>)
        ensures
            r@ == self@,
    {
        &self.entities
    }

    /// The index of the one entity with role `role`.
    pub fn single(&self, role: Role) -> (r: usize)
        requires
            has_one(self@, role),
        ensures
            is_only(self@, role, r as int),
    {
        let mut i: usize = 0;
        while i < self.entities.len()
            invariant
                has_one(self.entities@, role),
                i <= self.entities@.len(),
                forall|j: int| 0 <= j < i ==> self.entities@[j].role != role,
            decreases self.entities@.len() - i,
        {
            if self.entities[i].role == role {
                return i;
            }
            i = i + 1;
        }
        assert(false);
        0
    }

    /// The registry at startup: the player's paddle, the bot's paddle, the
    /// ball with `ball_velocity`, then the left, right, bottom and top walls.
    pub fn new(ball_velocity: Vector) -> (r: World)
        requires
            negatable(ball_velocity),
        ensures
            r@ == startup_entities(ball_velocity),
            r.wf(),
    {
        let paddle_size = Vector { x: PADDLE_WIDTH, y: PADDLE_HEIGHT };
        let mut entities: Vec<Entity> = Vec::new();
        entities.push(Entity {
            role: Role::Player,
            position: Vector { x: LEFT_WALL + WALL_TO_PADDLE_GAP, y: 0 },
            size: paddle_size,
            velocity: None,
            collider: true,
        });
        entities.push(Entity {
            role: Role::Bot,
            position: Vector { x: RIGHT_WALL - WALL_TO_PADDLE_GAP, y: 0 },
            size: paddle_size,
            velocity: None,
            collider: true,
        });
        entities.push(Entity {
            role: Role::Ball,
            position: Vector { x: BALL_START_X, y: BALL_START_Y },
            size: Vector { x: BALL_SIZE, y: BALL_SIZE },
            velocity: Some(ball_velocity),
            collider: false,
        });
        entities.push(Entity::wall(WallLocation::Left));
        entities.push(Entity::wall(WallLocation::Right));
        entities.push(Entity::wall(WallLocation::Bottom));
        entities.push(Entity::wall(WallLocation::Top));
        let r = World { entities };
        assert(r@ =~= startup_entities(ball_velocity));
        assert(is_only(r@, Role::Player, 0));
        assert(is_only(r@, Role::Bot, 1));
        assert(is_only(r@, Role::Ball, 2));
        r
    }

    /// Whether one tick of motion keeps every moving entity on the grid.
    pub fn integration_fits(&self) -> (r: bool)
        ensures
            r == integration_fits_in(self@),
    {
        let mut i: usize = 0;
        while i < self.entities.len()
            invariant
                i <= self.entities@.len(),
                forall|j: int| 0 <= j < i ==> advance_fits(#[trigger] self.entities@[j]),
            decreases self.entities@.len() - i,
        {
            let e = self.entities[i];
            match e.velocity {
                Some(v) => {
                    let x = e.position.x.checked_add(v.x);
                    let y = e.position.y.checked_add(v.y);
                    if x.is_none() || y.is_none() {
                        return false;
                    }
                },
                None => {},
            }
            i = i + 1;
        }
        true
    }

    /// Moves every entity that has a velocity by one tick of it.
    pub fn apply_velocity(&mut self)
        requires
            old(self).wf(),
            integration_fits_in(old(self)@),
        ensures
            final(self)@ == integrated(old(self)@),
            final(self).wf(),
    {
        let n = self.entities.len();
        let mut i: usize = 0;
        while i < n
            invariant
                n == self.entities@.len(),
                n == old(self)@.len(),
                i <= n,
                integration_fits_in(old(self)@),
                forall|j: int| 0 <= j < i ==> self.entities@[j] == advanced(old(self)@[j]),
                forall|j: int| i <= j < n ==> self.entities@[j] == old(self)@[j],
            decreases n - i,
        {
            let e = self.entities[i];
            assert(advance_fits(old(self)@[i as int]));
            match e.velocity {
                Some(v) => {
                    let moved = Entity {
                        position: Vector { x: e.position.x + v.x, y: e.position.y + v.y },
                        ..e
                    };
                    self.entities.set(i, moved);
                },
                None => {},
            }
            i = i + 1;
        }
        assert(self@ =~= integrated(old(self)@));
        proof {
            let s = old(self)@;
            let t = self@;
            assert forall|r: Role| #[trigger] has_one(s, r) implies has_one(t, r) by {
                let k = choose|k: int| is_only(s, r, k);
                assert(is_only(t, r, k));
            }
        }
    }

    /// Steps the player's paddle for the held keys and holds it between the
    /// paddle bounds; no other entity changes.
    pub fn move_player(&mut self, up: bool, down: bool)
        requires
            old(self).wf(),
        ensures
            final(self)@ == player_moved(old(self)@, up, down),
            final(self).wf(),
    {
        let p = self.single(Role::Player);
        let e = self.entities[p];
        let y = paddle_target(e.position.y, up, down);
        let moved = Entity { position: Vector { x: e.position.x, y }, ..e };
        self.entities.set(p, moved);
        proof {
            let s = old(self)@;
            let t = self@;
            assert(t =~= player_moved(s, up, down));
            assert forall|r: Role| #[trigger] has_one(s, r) implies has_one(t, r) by {
                let k = choose|k: int| is_only(s, r, k);
                assert(is_only(t, r, k));
            }
        }
    }

    /// Tests the ball against every collider in registry order, bounces its
    /// velocity off each face struck, and appends one event per collider hit.
    pub fn check_for_collisions(&mut self, events: &mut Vec<CollisionEvent>)
        requires
            old(self).wf(),
        ensures
            final(self)@ == collisions_resolved(old(self)@),
            final(self).wf(),
            final(events)@.len() == old(events)@.len() + hit_count(old(self)@),
            forall|k: int| 0 <= k < old(events)@.len() ==> final(events)@[k] == old(events)@[k],
    {
        let ghost s = self@;
        let b = self.single(Role::Ball);
        let ball = self.entities[b];
        let v0 = ball.velocity.unwrap();
        let mut v = v0;
        let n = self.entities.len();
        let ghost start_events = events@;
        let mut i: usize = 0;
        while i < n
            invariant
                self@ == s,
                n == s.len(),
                i <= n,
                ball == s[b as int],
                negatable(v),
                v == bounced_through(s, ball, v0, i as nat),
                events@.len() == start_events.len() + hits_among(s, ball, i as nat),
                forall|k: int| 0 <= k < start_events.len() ==> events@[k] == start_events[k],
            decreases n - i,
        {
            let e = self.entities[i];
            if e.collider {
                match collide(ball.position, ball.size, e.position, e.size) {
                    Some(face) => {
                        events.push(CollisionEvent);
                        v = reflect(v, face);
                    },
                    None => {},
                }
            }
            i = i + 1;
        }
        let bounced = Entity { velocity: Some(v), ..ball };
        self.entities.set(b, bounced);
        proof {
            let t = self@;
            assert(is_only(s, Role::Ball, b as int));
            assert(ball_of(s) == ball);
            assert(t =~= collisions_resolved(s));
            assert forall|r: Role| #[trigger] has_one(s, r) implies has_one(t, r) by {
                let k = choose|k: int| is_only(s, r, k);
                assert(is_only(t, r, k));
            }
        }
    }

    /// One fixed tick: motion, then the player's paddle, then collisions.
    pub fn tick(&mut self, up: bool, down: bool, events: &mut Vec<CollisionEvent>)
        requires
            old(self).wf(),
            integration_fits_in(old(self)@),
        ensures
            final(self)@ == ticked(old(self)@, up, down),
            final(self).wf(),
            final(events)@.len() == old(events)@.len()
                + hit_count(player_moved(integrated(old(self)@), up, down)),
            forall|k: int| 0 <= k < old(events)@.len() ==> final(events)@[k] == old(events)@[k],
            forall|i: int|
                0 <= i < old(self)@.len() && old(self)@[i].role != Role::Ball
                    && old(self)@[i].role != Role::Player
                    ==> #[trigger] final(self)@[i] == old(self)@[i],
    {
        self.apply_velocity();
        self.move_player(up, down);
        self.check_for_collisions(events);
    }
}

} // verus!
