//! Rigid bodies and collision tests.
//!
//! All geometry lives on a fixed-point grid: lengths are counted in
//! milli-pixels and time in milliseconds, so one screen pixel is 1000 units.
//! Velocities are milli-pixels per second and accelerations milli-pixels per
//! second squared.  Every coordinate is kept inside `[-FX_LIMIT, FX_LIMIT]`;
//! the integrator clamps to that range, which keeps every body well formed
//! forever and makes the step total.

use vstd::prelude::*;

verus! {

/// Largest magnitude a coordinate, velocity or acceleration component may
/// reach: two million pixels, far outside the visible world.
pub const FX_LIMIT: i64 = 2_000_000_000;

/// Largest time step the integrator accepts, in milliseconds.
pub const DT_MAX_MS: u32 = 30_000;

/// Whether a component lies on the fixed-point grid.
pub open spec fn in_fx_range(v: int) -> bool {
    -FX_LIMIT <= v <= FX_LIMIT
}

/// Clamps a component back onto the fixed-point grid.
pub open spec fn clamp_fx(v: int) -> int {
    if v < -FX_LIMIT {
        -FX_LIMIT as int
    } else if v > FX_LIMIT {
        FX_LIMIT as int
    } else {
        v
    }
}

/// A two-dimensional fixed-point vector, in milli-pixels.
#[derive(Clone, Copy, Debug, PartialEq, Eq, Structural)]
pub struct Vec2i {
    pub x: i64,
    pub y: i64,
}

impl Vec2i {
    /// Both components lie on the fixed-point grid.
    pub open spec fn wf(self) -> bool {
        in_fx_range(self.x as int) && in_fx_range(self.y as int)
    }
}

/// Marks an entity whose box ends the run when the player touches it.
#[derive(Clone, Copy, Debug, PartialEq, Eq, Structural)]
pub struct Collider;

/// A point mass moved by the explicit-Euler integrator once per fixed tick.
#[derive(Clone, Copy, Debug, PartialEq, Eq, Structural)]
pub struct RigidBody {
    pub position: Vec2i,
    pub velocity: Vec2i,
    pub acceleration: Vec2i,
}

impl RigidBody {
    /// Every component of the body lies on the fixed-point grid.
    pub open spec fn wf(self) -> bool {
        self.position.wf() && self.velocity.wf() && self.acceleration.wf()
    }
}

impl Default for RigidBody {
    /// A body at rest at the origin.
    fn default() -> (body: RigidBody)
        ensures
            body.position.x == 0 && body.position.y == 0,
            body.velocity.x == 0 && body.velocity.y == 0,
            body.acceleration.x == 0 && body.acceleration.y == 0,
    {
        RigidBody { position: Vec2i { x: 0, y: 0 }, velocity: Vec2i { x: 0, y: 0 }, acceleration: Vec2i { x: 0, y: 0 } }
    }
}

/// Position after one step: the distance-travelled terms of the
/// constant-acceleration equation, on the fixed-point grid.  Velocity is
/// milli-pixels per second, so the velocity term divides by 1000; the
/// acceleration term divides by `2 * 1000 * 1000` for the factor one half
/// and the two millisecond-to-second conversions.
pub open spec fn spec_pos_step(p: int, v: int, a: int, dt: int) -> int {
    clamp_fx(p + (v * dt) / 1000 + (a * dt * dt) / 2_000_000)
}

/// Velocity after one step, gaining `a * dt` scaled to milli-pixels per second.
pub open spec fn spec_vel_step(v: int, a: int, dt: int) -> int {
    clamp_fx(v + (a * dt) / 1000)
}

/// The whole body after one explicit-Euler step of `dt` milliseconds.
pub open spec fn spec_integrate(body: RigidBody, dt: int) -> RigidBody {
    RigidBody {
        position: Vec2i {
            x: spec_pos_step(body.position.x as int, body.velocity.x as int, body.acceleration.x as int, dt) as i64,
            y: spec_pos_step(body.position.y as int, body.velocity.y as int, body.acceleration.y as int, dt) as i64,
        },
        velocity: Vec2i {
            x: spec_vel_step(body.velocity.x as int, body.acceleration.x as int, dt) as i64,
            y: spec_vel_step(body.velocity.y as int, body.acceleration.y as int, dt) as i64,
        },
        acceleration: body.acceleration,
    }
}

/// Floor division by a positive constant, exact on the mathematical integers.
pub(crate) fn div_floor(x: i64, d: i64) -> (q: i64)
    requires
        d > 0,
    ensures
        q == x as int / d as int,
        x >= 0 ==> 0 <= q <= x,
        x < 0 ==> x <= q <= 0,
{
    proof {
        vstd::arithmetic::div_mod::lemma_fundamental_div_mod(x as int, d as int);
        vstd::arithmetic::div_mod::lemma_mod_division_less_than_divisor(x as int, d as int);
        assert({
            &&& x >= 0 ==> 0 <= x as int / d as int <= x
            &&& x < 0 ==> x <= x as int / d as int <= 0
        }) by (nonlinear_arith)
            requires
                d > 0,
                x as int == d as int * (x as int / d as int) + x as int % d as int,
                0 <= (x as int % d as int) < (d as int),
        ;
    }
    let q = x.checked_div_euclid(d);
    q.unwrap()
}

/// Clamps one component back onto the fixed-point grid.
fn clamp_coord(v: i64) -> (r: i64)
    ensures
        r == clamp_fx(v as int),
{
    if v < -FX_LIMIT {
        -FX_LIMIT
    } else if v > FX_LIMIT {
        FX_LIMIT
    } else {
        v
    }
}

/// The distance gained from the velocity over `dt` milliseconds.
fn vel_term(v: i64, dt: i64) -> (r: i64)
    requires
        in_fx_range(v as int),
        0 <= dt <= DT_MAX_MS,
    ensures
        r == (v * dt) / 1000,
        -FX_LIMIT * DT_MAX_MS <= r <= FX_LIMIT * DT_MAX_MS,
{
    proof {
        assert(-FX_LIMIT * DT_MAX_MS <= v * dt <= FX_LIMIT * DT_MAX_MS) by (nonlinear_arith)
            requires
                -FX_LIMIT <= v <= FX_LIMIT,
                0 <= dt <= DT_MAX_MS,
        ;
    }
    div_floor(v * dt, 1000)
}

/// The distance gained from the acceleration over `dt` milliseconds.
fn acc_term(a: i64, dt: i64) -> (r: i64)
    requires
        in_fx_range(a as int),
        0 <= dt <= DT_MAX_MS,
    ensures
        r == (a * dt * dt) / 2_000_000,
        -FX_LIMIT * DT_MAX_MS * DT_MAX_MS <= r <= FX_LIMIT * DT_MAX_MS * DT_MAX_MS,
{
    proof {
        assert(-FX_LIMIT * DT_MAX_MS <= a * dt <= FX_LIMIT * DT_MAX_MS) by (nonlinear_arith)
            requires
                -FX_LIMIT <= a <= FX_LIMIT,
                0 <= dt <= DT_MAX_MS,
        ;
    }
    let ad = a * dt;
    proof {
        assert(-FX_LIMIT * DT_MAX_MS * DT_MAX_MS <= ad * dt <= FX_LIMIT * DT_MAX_MS * DT_MAX_MS)
            by (nonlinear_arith)
            requires
                -FX_LIMIT * DT_MAX_MS <= ad <= FX_LIMIT * DT_MAX_MS,
                0 <= dt <= DT_MAX_MS,
        ;
    }
    div_floor(ad * dt, 2_000_000)
}

/// One explicit-Euler step for a single body.
pub fn integrate(body: &mut RigidBody, dt_ms: u32)
    requires
        old(body).wf(),
        dt_ms <= DT_MAX_MS,
    ensures
        *final(body) == spec_integrate(*old(body), dt_ms as int),
        final(body).wf(),
{
    let dt = dt_ms as i64;
    let px = clamp_coord(body.position.x + vel_term(body.velocity.x, dt) + acc_term(body.acceleration.x, dt));
    let py = clamp_coord(body.position.y + vel_term(body.velocity.y, dt) + acc_term(body.acceleration.y, dt));
    let vx = clamp_coord(body.velocity.x + vel_term(body.acceleration.x, dt));
    let vy = clamp_coord(body.velocity.y + vel_term(body.acceleration.y, dt));
    body.position = Vec2i { x: px, y: py };
    body.velocity = Vec2i { x: vx, y: vy };
}

/// An axis-aligned bounding box given by its center and half-extents.
#[derive(Clone, Copy, Debug, PartialEq, Eq, Structural)]
pub struct Aabb {
    pub center: Vec2i,
    pub half: Vec2i,
}

impl Aabb {
    /// The center sits on the fixed-point grid and the half-extents are
    /// non-negative and on the grid.
    pub open spec fn wf(self) -> bool {
        &&& self.center.wf()
        &&& self.half.wf()
        &&& self.half.x >= 0
        &&& self.half.y >= 0
    }
}

/// Whether two boxes overlap; boxes that merely touch count as overlapping,
/// as they do for the engine's bounding-box intersection test.
pub open spec fn spec_intersects(a: Aabb, b: Aabb) -> bool {
    &&& a.center.x - a.half.x <= b.center.x + b.half.x
    &&& b.center.x - b.half.x <= a.center.x + a.half.x
    &&& a.center.y - a.half.y <= b.center.y + b.half.y
    &&& b.center.y - b.half.y <= a.center.y + a.half.y
}

impl Aabb {
    /// The closed-bounds overlap test on both axes.
    pub fn intersects(&self, other: &Aabb) -> (r: bool)
        requires
            self.wf(),
            other.wf(),
        ensures
            r == spec_intersects(*self, *other),
    {
        self.center.x - self.half.x <= other.center.x + other.half.x
            && other.center.x - other.half.x <= self.center.x + self.half.x
            && self.center.y - self.half.y <= other.center.y + other.half.y
            && other.center.y - other.half.y <= self.center.y + self.half.y
    }
}

/// What the player ran into: a solid wall or border, which ends the run, or
/// the invisible waypoint in a gap, named by its entity id, which scores.
#[derive(Clone, Copy, Debug, PartialEq, Eq, Structural)]
pub enum CollideWith {
    Obstacle,
    Waypoint(u64),
}

/// A collision found during one fixed tick.
#[derive(Clone, Copy, Debug, PartialEq, Eq, Structural)]
pub struct CollideEvent {
    pub other: CollideWith,
}

impl Default for CollideEvent {
    /// A collision with a solid obstacle.
    fn default() -> (ev: CollideEvent)
        ensures
            ev.other is Obstacle,
    {
        CollideEvent { other: CollideWith::Obstacle }
    }
}

/// The obstacle collisions the player box has against a row of boxes, one
/// event per overlapping box, in the boxes' order.
pub open spec fn spec_obstacle_events(player: Aabb, boxes: Seq<Aabb>) -> Seq<CollideEvent>
    decreases boxes.len(),
{
    if boxes.len() == 0 {
        Seq::empty()
    } else {
        spec_obstacle_events(player, boxes.drop_last()) + (if spec_intersects(player, boxes.last()) {
            seq![CollideEvent { other: CollideWith::Obstacle }]
        } else {
            Seq::empty()
        })
    }
}

/// The waypoint collisions the player box has against a row of waypoint
/// boxes, one event per overlapping box, carrying the waypoint's id.
pub open spec fn spec_waypoint_events(player: Aabb, wps: Seq<(u64, Aabb)>) -> Seq<CollideEvent>
    decreases wps.len(),
{
    if wps.len() == 0 {
        Seq::empty()
    } else {
        spec_waypoint_events(player, wps.drop_last()) + (if spec_intersects(player, wps.last().1) {
            seq![CollideEvent { other: CollideWith::Waypoint(wps.last().0) }]
        } else {
            Seq::empty()
        })
    }
}

/// All collisions of one fixed tick: the obstacle events first, then the
/// waypoint events, each in query order.
pub open spec fn spec_collision(player: Aabb, boxes: Seq<Aabb>, wps: Seq<(u64, Aabb)>) -> Seq<
    CollideEvent,
> {
    spec_obstacle_events(player, boxes) + spec_waypoint_events(player, wps)
}

/// Tests the player box against every solid box and every waypoint box and
/// collects the collision events of this tick.
pub fn collision(player: &Aabb, boxes: &Vec<Aabb>, waypoints: &Vec<(u64, Aabb)>) -> (events: Vec<
    CollideEvent,
>)
    requires
        player.wf(),
        forall|i: int| 0 <= i < boxes@.len() ==> (#[trigger] boxes@[i]).wf(),
        forall|i: int| 0 <= i < waypoints@.len() ==> (#[trigger] waypoints@[i]).1.wf(),
    ensures
        events@ == spec_collision(*player, boxes@, waypoints@),
{
    let mut events: Vec<CollideEvent> = Vec::new();
    let mut idx: usize = 0;
    while idx < boxes.len()
        invariant
            idx <= boxes@.len(),
            player.wf(),
            forall|i: int| 0 <= i < boxes@.len() ==> (#[trigger] boxes@[i]).wf(),
            events@ == spec_obstacle_events(*player, boxes@.take(idx as int)),
        decreases boxes@.len() - idx,
    {
        proof {
            assert(boxes@.take(idx + 1).drop_last() =~= boxes@.take(idx as int));
            assert(boxes@.take(idx + 1).last() == boxes@[idx as int]);
        }
        if player.intersects(&boxes[idx]) {
            events.push(CollideEvent { other: CollideWith::Obstacle });
        }
        idx = idx + 1;
    }
    proof {
        assert(boxes@.take(boxes@.len() as int) =~= boxes@);
    }
    let mut jdx: usize = 0;
    while jdx < waypoints.len()
        invariant
            jdx <= waypoints@.len(),
            player.wf(),
            forall|i: int| 0 <= i < waypoints@.len() ==> (#[trigger] waypoints@[i]).1.wf(),
            events@ == spec_obstacle_events(*player, boxes@) + spec_waypoint_events(
                *player,
                waypoints@.take(jdx as int),
            ),
        decreases waypoints@.len() - jdx,
    {
        proof {
            assert(waypoints@.take(jdx + 1).drop_last() =~= waypoints@.take(jdx as int));
            assert(waypoints@.take(jdx + 1).last() == waypoints@[jdx as int]);
        }
        let wp = waypoints[jdx];
        if player.intersects(&wp.1) {
            events.push(CollideEvent { other: CollideWith::Waypoint(wp.0) });
        }
        jdx = jdx + 1;
    }
    proof {
        assert(waypoints@.take(waypoints@.len() as int) =~= waypoints@);
    }
    events
}

/// One explicit-Euler step for every body in the world.
pub fn bodies_movement(bodies: &mut Vec<RigidBody>, dt_ms: u32)
    requires
        forall|i: int| 0 <= i < old(bodies)@.len() ==> old(bodies)@[i].wf(),
        dt_ms <= DT_MAX_MS,
    ensures
        final(bodies)@.len() == old(bodies)@.len(),
        forall|i: int| 0 <= i < old(bodies)@.len()
            ==> final(bodies)@[i] == spec_integrate(old(bodies)@[i], dt_ms as int),
{
    let mut idx: usize = 0;
    while idx < bodies.len()
        invariant
            idx <= bodies@.len(),
            bodies@.len() == old(bodies)@.len(),
            dt_ms <= DT_MAX_MS,
            forall|i: int| idx <= i < bodies@.len() ==> bodies@[i] == old(bodies)@[i],
            forall|i: int| 0 <= i < bodies@.len() ==> old(bodies)@[i].wf(),
            forall|i: int| 0 <= i < idx ==> bodies@[i] == spec_integrate(old(bodies)@[i], dt_ms as int),
        decreases bodies@.len() - idx,
    {
        let mut body = bodies[idx];
        integrate(&mut body, dt_ms);
        bodies.set(idx, body);
        idx = idx + 1;
    }
}

} // verus!
