//! The scrolling world: its borders, the obstacle generator, the waypoints
//! that mark each gap, and the scoreboard.
//!
//! Lengths are milli-pixels, as everywhere in the crate.  The world is a
//! fixed window: 800 pixels tall and golden-ratio wide, with a solid border
//! along the top and the bottom.  Every two seconds a pair of walls with a
//! randomly placed gap enters from the right and drifts left at constant
//! speed; an invisible waypoint fills the gap and scores a point when the
//! player passes through it.

use vstd::prelude::*;
use crate::physics::Aabb;
use crate::physics::CollideEvent;
use crate::physics::CollideWith;
use crate::physics::RigidBody;
use crate::physics::Vec2i;
use crate::physics::div_floor;
use crate::timer::RepeatingTimer;
use crate::timer::TIMER_MAX_MS;

verus! {

/// Height of the world window, in milli-pixels (800 pixels).
pub const WORLD_HEIGHT: i64 = 800_000;

/// Top edge of the world.
pub const WORLD_TOP: i64 = 400_000;

/// Bottom edge of the world.
pub const WORLD_BOTTOM: i64 = -400_000;

/// Width of the world window: the height times the golden ratio.
pub const WORLD_WIDTH: i64 = 1_294_400;

/// Right edge of the world, where obstacles enter.
pub const WORLD_RIGHT: i64 = 647_200;

/// Left edge of the world, where obstacles leave and are despawned.
pub const WORLD_LEFT: i64 = -647_200;

/// Vertical opening between the two walls of an obstacle pair.
pub const OBSTACLE_GAP_SIZE: i64 = 200_000;

/// Half the opening, the distance from a gap's center to a wall edge.
pub const OBSTACLE_GAP_HALF: i64 = 100_000;

/// Thickness of a wall, and of the world borders.
pub const OBSTACLE_WIDTH: i64 = 20_000;

/// Leftward drift speed of obstacles, in milli-pixels per second.
pub const OBSTACLE_SPEED: i64 = 120_000;

/// Horizontal velocity every spawned obstacle and waypoint gets.
pub const OBSTACLE_VELOCITY_X: i64 = 0 - OBSTACLE_SPEED;

/// Period of the obstacle spawner, in milliseconds (two seconds).
pub const OBSTACLE_SPAWN_PERIOD_MS: u32 = 2_000;

/// Period of the end-of-run clearing animation, in milliseconds.
pub const OBSTACLE_DESPAWN_PERIOD_MS: u32 = 200;

/// Lowest gap center the spawner will place.
pub const GAP_POSITION_MIN: i64 = OBSTACLE_GAP_SIZE;

/// Highest gap center the spawner will place.
pub const GAP_POSITION_MAX: i64 = WORLD_HEIGHT - OBSTACLE_GAP_SIZE;

/// A wall drifting through the world.  `size` holds the full extents of its
/// sprite; the collider box uses half of each.
#[derive(Clone, Copy, Debug, PartialEq, Eq, Structural)]
pub struct Obstacle {
    pub body: RigidBody,
    pub size: Vec2i,
}

/// The invisible marker filling an obstacle gap.  Passing through it scores
/// a point; `id` names the entity so a collision event can point back at it.
#[derive(Clone, Copy, Debug, PartialEq, Eq, Structural)]
pub struct Waypoint {
    pub id: u64,
    pub body: RigidBody,
    pub size: Vec2i,
}

/// The run's score: counts the waypoints passed since the last restart.
#[derive(Clone, Copy, Debug, PartialEq, Eq, Structural)]
pub struct ScoreBoard {
    pub score: u32,
}

impl Obstacle {
    /// The body is on the fixed-point grid and the extents are non-negative.
    pub open spec fn wf(self) -> bool {
        self.body.wf() && self.size.wf() && self.size.x >= 0 && self.size.y >= 0
    }

    /// The box of this wall: centered on the body, spanning half the sprite
    /// extents each way.
    pub open spec fn spec_collider_box(self) -> Aabb {
        Aabb {
            center: self.body.position,
            half: Vec2i { x: (self.size.x as int / 2) as i64, y: (self.size.y as int / 2) as i64 },
        }
    }

    /// Computes the wall's collider box.
    pub fn collider_box(&self) -> (b: Aabb)
        requires
            self.wf(),
        ensures
            b == self.spec_collider_box(),
            b.wf(),
    {
        Aabb {
            center: self.body.position,
            half: Vec2i { x: div_floor(self.size.x, 2), y: div_floor(self.size.y, 2) },
        }
    }
}

impl Waypoint {
    /// The body is on the fixed-point grid and the extents are non-negative.
    pub open spec fn wf(self) -> bool {
        self.body.wf() && self.size.wf() && self.size.x >= 0 && self.size.y >= 0
    }

    /// The box of this waypoint, spanning half the sprite extents each way.
    pub open spec fn spec_collider_box(self) -> Aabb {
        Aabb {
            center: self.body.position,
            half: Vec2i { x: (self.size.x as int / 2) as i64, y: (self.size.y as int / 2) as i64 },
        }
    }

    /// Computes the waypoint's collider box.
    pub fn collider_box(&self) -> (b: Aabb)
        requires
            self.wf(),
        ensures
            b == self.spec_collider_box(),
            b.wf(),
    {
        Aabb {
            center: self.body.position,
            half: Vec2i { x: div_floor(self.size.x, 2), y: div_floor(self.size.y, 2) },
        }
    }
}

/// Height of the wall above a gap centered `gap` above the world bottom.
pub open spec fn spec_top_wall_height(gap: int) -> int {
    WORLD_HEIGHT - (gap + OBSTACLE_GAP_SIZE / 2)
}

/// Height of the wall below that gap.
pub open spec fn spec_bottom_wall_height(gap: int) -> int {
    WORLD_HEIGHT - spec_top_wall_height(gap) - OBSTACLE_GAP_SIZE
}

/// The upper wall of an obstacle pair: hanging from the world top, drifting
/// left at the obstacle speed.
pub open spec fn spec_top_wall(gap: int) -> Obstacle {
    Obstacle {
        body: RigidBody {
            position: Vec2i {
                x: WORLD_RIGHT,
                y: (WORLD_TOP - spec_top_wall_height(gap) / 2) as i64,
            },
            velocity: Vec2i { x: OBSTACLE_VELOCITY_X, y: 0 },
            acceleration: Vec2i { x: 0, y: 0 },
        },
        size: Vec2i { x: OBSTACLE_WIDTH, y: spec_top_wall_height(gap) as i64 },
    }
}

/// The lower wall of an obstacle pair: standing on the world bottom.
pub open spec fn spec_bottom_wall(gap: int) -> Obstacle {
    Obstacle {
        body: RigidBody {
            position: Vec2i {
                x: WORLD_RIGHT,
                y: (WORLD_BOTTOM + spec_bottom_wall_height(gap) / 2) as i64,
            },
            velocity: Vec2i { x: OBSTACLE_VELOCITY_X, y: 0 },
            acceleration: Vec2i { x: 0, y: 0 },
        },
        size: Vec2i { x: OBSTACLE_WIDTH, y: spec_bottom_wall_height(gap) as i64 },
    }
}

/// The waypoint of an obstacle pair, centered `gap` above the world bottom
/// and as tall as the opening.
pub open spec fn spec_gap_waypoint(gap: int, id: u64) -> Waypoint {
    Waypoint {
        id,
        body: RigidBody {
            position: Vec2i { x: WORLD_RIGHT, y: (WORLD_BOTTOM + gap) as i64 },
            velocity: Vec2i { x: OBSTACLE_VELOCITY_X, y: 0 },
            acceleration: Vec2i { x: 0, y: 0 },
        },
        size: Vec2i { x: OBSTACLE_WIDTH, y: OBSTACLE_GAP_SIZE },
    }
}

/// Builds one obstacle pair and its waypoint: two walls at the right edge
/// with an opening of `OBSTACLE_GAP_SIZE` centered `gap_position` above the
/// world bottom, and the waypoint filling that opening.
pub fn spawn_obstacle(gap_position: i64, waypoint_id: u64) -> (spawned: (
    Obstacle,
    Obstacle,
    Waypoint,
))
    requires
        GAP_POSITION_MIN <= gap_position <= GAP_POSITION_MAX,
    ensures
        spawned.0 == spec_top_wall(gap_position as int),
        spawned.1 == spec_bottom_wall(gap_position as int),
        spawned.2 == spec_gap_waypoint(gap_position as int, waypoint_id),
        spawned.0.wf(),
        spawned.1.wf(),
        spawned.2.wf(),
{
    let top_wall_height = WORLD_HEIGHT - (gap_position + OBSTACLE_GAP_HALF);
    let top_wall_y_pos = WORLD_TOP - div_floor(top_wall_height, 2);
    let bottom_wall_height = WORLD_HEIGHT - top_wall_height - OBSTACLE_GAP_SIZE;
    let bottom_wall_y_pos = WORLD_BOTTOM + div_floor(bottom_wall_height, 2);

    let top = Obstacle {
        body: RigidBody {
            position: Vec2i { x: WORLD_RIGHT, y: top_wall_y_pos },
            velocity: Vec2i { x: OBSTACLE_VELOCITY_X, y: 0 },
            acceleration: Vec2i { x: 0, y: 0 },
        },
        size: Vec2i { x: OBSTACLE_WIDTH, y: top_wall_height },
    };
    let bottom = Obstacle {
        body: RigidBody {
            position: Vec2i { x: WORLD_RIGHT, y: bottom_wall_y_pos },
            velocity: Vec2i { x: OBSTACLE_VELOCITY_X, y: 0 },
            acceleration: Vec2i { x: 0, y: 0 },
        },
        size: Vec2i { x: OBSTACLE_WIDTH, y: bottom_wall_height },
    };
    let waypoint = Waypoint {
        id: waypoint_id,
        body: RigidBody {
            position: Vec2i { x: WORLD_RIGHT, y: WORLD_BOTTOM + gap_position },
            velocity: Vec2i { x: OBSTACLE_VELOCITY_X, y: 0 },
            acceleration: Vec2i { x: 0, y: 0 },
        },
        size: Vec2i { x: OBSTACLE_WIDTH, y: OBSTACLE_GAP_SIZE },
    };
    (top, bottom, waypoint)
}

/// Every obstacle pair leaves the world height exactly partitioned: the two
/// wall heights and the opening sum to the full height, and the waypoint's
/// vertical span runs precisely from the lower wall's top edge to the upper
/// wall's bottom edge.
pub proof fn lemma_gap_partition(gap: int)
    requires
        GAP_POSITION_MIN <= gap <= GAP_POSITION_MAX,
    ensures
        spec_top_wall_height(gap) + spec_bottom_wall_height(gap) + OBSTACLE_GAP_SIZE
            == WORLD_HEIGHT,
        spec_top_wall_height(gap) > 0,
        spec_bottom_wall_height(gap) > 0,
        spec_gap_waypoint(gap, 0).body.position.y - OBSTACLE_GAP_SIZE / 2 == WORLD_BOTTOM
            + spec_bottom_wall_height(gap),
        spec_gap_waypoint(gap, 0).body.position.y + OBSTACLE_GAP_SIZE / 2 == WORLD_TOP
            - spec_top_wall_height(gap),
{
}

/// The gap center one uniformly random draw stands for: the draw reduced
/// modulo the world height, then clamped into the allowed band.
pub open spec fn spec_gap_from_random(r: u32) -> int {
    let raw = (r as int) % ((WORLD_HEIGHT + 1) as int);
    if raw < GAP_POSITION_MIN {
        GAP_POSITION_MIN as int
    } else if raw > GAP_POSITION_MAX {
        GAP_POSITION_MAX as int
    } else {
        raw
    }
}

/// Turns one random draw into a gap center inside the allowed band.
pub fn gap_from_random(r: u32) -> (gap: i64)
    ensures
        gap == spec_gap_from_random(r),
        GAP_POSITION_MIN <= gap <= GAP_POSITION_MAX,
{
    let raw = (r as u64 % ((WORLD_HEIGHT + 1) as u64)) as i64;
    if raw < GAP_POSITION_MIN {
        GAP_POSITION_MIN
    } else if raw > GAP_POSITION_MAX {
        GAP_POSITION_MAX
    } else {
        raw
    }
}

/// Relies on rand::random: one draw from the thread-local generator.
/// Nothing is promised of the value; every caller copes with any draw.
pub assume_specification<T>[ rand::random::<T> ]() -> T
    where
        rand::distributions::Standard: rand::distributions::Distribution<T>,
;

/// Draws the spawner's next gap center.  The draw is random, so no exact
/// value is promised, but whatever comes back lies in the allowed band.
pub fn draw_gap_position() -> (gap: i64)
    ensures
        GAP_POSITION_MIN <= gap <= GAP_POSITION_MAX,
{
    let r: u32 = rand::random();
    gap_from_random(r)
}

/// Half the thickness of a wall or border.
pub const OBSTACLE_HALF_WIDTH: i64 = 10_000;

/// The solid border along the top of the world.
pub open spec fn spec_top_border() -> Aabb {
    Aabb {
        center: Vec2i { x: 0, y: WORLD_TOP },
        half: Vec2i { x: WORLD_RIGHT, y: OBSTACLE_HALF_WIDTH },
    }
}

/// The solid border along the bottom of the world.
pub open spec fn spec_bottom_border() -> Aabb {
    Aabb {
        center: Vec2i { x: 0, y: WORLD_BOTTOM },
        half: Vec2i { x: WORLD_RIGHT, y: OBSTACLE_HALF_WIDTH },
    }
}

/// Everything the world owns: the two fixed borders, the drifting walls and
/// waypoints, the two timers, the scoreboard and the id counter for the
/// next waypoint.
#[derive(Debug)]
pub struct WorldState {
    pub top_border: Aabb,
    pub bottom_border: Aabb,
    pub obstacles: Vec<Obstacle>,
    pub waypoints: Vec<Waypoint>,
    pub spawn_timer: RepeatingTimer,
    pub despawn_timer: RepeatingTimer,
    pub scoreboard: ScoreBoard,
    pub next_id: u64,
}

impl WorldState {
    /// Borders, entities and timers are all well formed.
    pub open spec fn wf(self) -> bool {
        &&& self.top_border.wf()
        &&& self.bottom_border.wf()
        &&& forall|i: int|
            0 <= i < self.obstacles@.len() ==> (#[trigger] self.obstacles@[i]).wf()
        &&& forall|i: int|
            0 <= i < self.waypoints@.len() ==> (#[trigger] self.waypoints@[i]).wf()
        &&& self.spawn_timer.wf()
        &&& self.despawn_timer.wf()
    }
}

/// Builds the world of a fresh game: borders in place, no obstacles yet,
/// both timers at zero and the score cleared.
pub fn setup_world() -> (w: WorldState)
    ensures
        w.wf(),
        w.top_border == spec_top_border(),
        w.bottom_border == spec_bottom_border(),
        w.obstacles@.len() == 0,
        w.waypoints@.len() == 0,
        w.spawn_timer.elapsed_ms == 0 && w.spawn_timer.duration_ms == OBSTACLE_SPAWN_PERIOD_MS,
        w.despawn_timer.elapsed_ms == 0 && w.despawn_timer.duration_ms
            == OBSTACLE_DESPAWN_PERIOD_MS,
        w.scoreboard.score == 0,
        w.next_id == 0,
{
    WorldState {
        top_border: Aabb {
            center: Vec2i { x: 0, y: WORLD_TOP },
            half: Vec2i { x: WORLD_RIGHT, y: OBSTACLE_HALF_WIDTH },
        },
        bottom_border: Aabb {
            center: Vec2i { x: 0, y: WORLD_BOTTOM },
            half: Vec2i { x: WORLD_RIGHT, y: OBSTACLE_HALF_WIDTH },
        },
        obstacles: Vec::new(),
        waypoints: Vec::new(),
        spawn_timer: RepeatingTimer::new(OBSTACLE_SPAWN_PERIOD_MS),
        despawn_timer: RepeatingTimer::new(OBSTACLE_DESPAWN_PERIOD_MS),
        scoreboard: ScoreBoard { score: 0 },
        next_id: 0,
    }
}

/// The obstacles still inside the world: those whose center has not yet
/// drifted past the left edge, in their original order.
pub open spec fn spec_kept_obstacles(obs: Seq<Obstacle>) -> Seq<Obstacle>
    decreases obs.len(),
{
    if obs.len() == 0 {
        Seq::empty()
    } else {
        spec_kept_obstacles(obs.drop_last()) + (if obs.last().body.position.x < WORLD_LEFT {
            Seq::empty()
        } else {
            seq![obs.last()]
        })
    }
}

/// The waypoints still inside the world, by the same rule.
pub open spec fn spec_kept_waypoints(wps: Seq<Waypoint>) -> Seq<Waypoint>
    decreases wps.len(),
{
    if wps.len() == 0 {
        Seq::empty()
    } else {
        spec_kept_waypoints(wps.drop_last()) + (if wps.last().body.position.x < WORLD_LEFT {
            Seq::empty()
        } else {
            seq![wps.last()]
        })
    }
}

/// Drops the obstacles that have drifted past the left edge.
fn retain_obstacles(obstacles: &mut Vec<Obstacle>)
    requires
        forall|i: int| 0 <= i < old(obstacles)@.len() ==> (#[trigger] old(obstacles)@[i]).wf(),
    ensures
        final(obstacles)@ == spec_kept_obstacles(old(obstacles)@),
        forall|i: int| 0 <= i < final(obstacles)@.len() ==> (#[trigger] final(obstacles)@[i]).wf(),
{
    let mut kept: Vec<Obstacle> = Vec::new();
    let mut idx: usize = 0;
    while idx < obstacles.len()
        invariant
            idx <= obstacles@.len(),
            obstacles@ == old(obstacles)@,
            forall|i: int| 0 <= i < obstacles@.len() ==> (#[trigger] obstacles@[i]).wf(),
            kept@ == spec_kept_obstacles(obstacles@.take(idx as int)),
            forall|i: int| 0 <= i < kept@.len() ==> (#[trigger] kept@[i]).wf(),
        decreases obstacles@.len() - idx,
    {
        proof {
            assert(obstacles@.take(idx + 1).drop_last() =~= obstacles@.take(idx as int));
            assert(obstacles@.take(idx + 1).last() == obstacles@[idx as int]);
        }
        let ob = obstacles[idx];
        if ob.body.position.x >= WORLD_LEFT {
            kept.push(ob);
        }
        idx = idx + 1;
    }
    proof {
        assert(obstacles@.take(obstacles@.len() as int) =~= obstacles@);
    }
    *obstacles = kept;
}

/// Drops the waypoints that have drifted past the left edge.
fn retain_waypoints(waypoints: &mut Vec<Waypoint>)
    requires
        forall|i: int| 0 <= i < old(waypoints)@.len() ==> (#[trigger] old(waypoints)@[i]).wf(),
    ensures
        final(waypoints)@ == spec_kept_waypoints(old(waypoints)@),
        forall|i: int| 0 <= i < final(waypoints)@.len() ==> (#[trigger] final(waypoints)@[i]).wf(),
{
    let mut kept: Vec<Waypoint> = Vec::new();
    let mut idx: usize = 0;
    while idx < waypoints.len()
        invariant
            idx <= waypoints@.len(),
            waypoints@ == old(waypoints)@,
            forall|i: int| 0 <= i < waypoints@.len() ==> (#[trigger] waypoints@[i]).wf(),
            kept@ == spec_kept_waypoints(waypoints@.take(idx as int)),
            forall|i: int| 0 <= i < kept@.len() ==> (#[trigger] kept@[i]).wf(),
        decreases waypoints@.len() - idx,
    {
        proof {
            assert(waypoints@.take(idx + 1).drop_last() =~= waypoints@.take(idx as int));
            assert(waypoints@.take(idx + 1).last() == waypoints@[idx as int]);
        }
        let wp = waypoints[idx];
        if wp.body.position.x >= WORLD_LEFT {
            kept.push(wp);
        }
        idx = idx + 1;
    }
    proof {
        assert(waypoints@.take(waypoints@.len() as int) =~= waypoints@);
    }
    *waypoints = kept;
}

/// One world-update frame during a run: entities past the left edge are
/// despawned, the spawn timer advances, and when it fires a freshly drawn
/// obstacle pair and its waypoint enter at the right edge, under the next
/// free id.  The gap of a spawned pair is random; everything else is exact.
pub fn update_world(world: &mut WorldState, dt_ms: u32)
    requires
        old(world).wf(),
        dt_ms <= TIMER_MAX_MS,
        old(world).next_id < u64::MAX,
    ensures
        final(world).wf(),
        final(world).top_border == old(world).top_border,
        final(world).bottom_border == old(world).bottom_border,
        final(world).scoreboard == old(world).scoreboard,
        final(world).despawn_timer == old(world).despawn_timer,
        final(world).spawn_timer == old(world).spawn_timer.spec_tick(dt_ms as int),
        !old(world).spawn_timer.spec_fired(dt_ms as int) ==> {
            &&& final(world).obstacles@ == spec_kept_obstacles(old(world).obstacles@)
            &&& final(world).waypoints@ == spec_kept_waypoints(old(world).waypoints@)
            &&& final(world).next_id == old(world).next_id
        },
        old(world).spawn_timer.spec_fired(dt_ms as int) ==> exists|gap: int|
            {
                &&& GAP_POSITION_MIN <= gap <= GAP_POSITION_MAX
                &&& final(world).obstacles@ == spec_kept_obstacles(old(world).obstacles@)
                    + seq![spec_top_wall(gap), spec_bottom_wall(gap)]
                &&& final(world).waypoints@ == spec_kept_waypoints(old(world).waypoints@)
                    + seq![spec_gap_waypoint(gap, old(world).next_id)]
                &&& final(world).next_id == old(world).next_id + 1
            },
{
    retain_obstacles(&mut world.obstacles);
    retain_waypoints(&mut world.waypoints);
    let fired = world.spawn_timer.tick(dt_ms);
    if fired {
        let gap = draw_gap_position();
        let spawned = spawn_obstacle(gap, world.next_id);
        world.obstacles.push(spawned.0);
        world.obstacles.push(spawned.1);
        world.waypoints.push(spawned.2);
        world.next_id = world.next_id + 1;
        proof {
            assert(world.obstacles@ =~= spec_kept_obstacles(old(world).obstacles@)
                + seq![spec_top_wall(gap as int), spec_bottom_wall(gap as int)]);
            assert(world.waypoints@ =~= spec_kept_waypoints(old(world).waypoints@)
                + seq![spec_gap_waypoint(gap as int, old(world).next_id)]);
        }
    }
}

/// One frame of the clearing animation after a crash: the despawn timer
/// advances and removes the front obstacle each time it fires; once the
/// world was already empty when the frame began, the game moves to the
/// game-over screen.
pub fn clear_world(world: &mut WorldState, dt_ms: u32, state: &mut crate::ApplicationState)
    requires
        old(world).wf(),
        dt_ms <= TIMER_MAX_MS,
    ensures
        final(world).wf(),
        final(world).top_border == old(world).top_border,
        final(world).bottom_border == old(world).bottom_border,
        final(world).scoreboard == old(world).scoreboard,
        final(world).spawn_timer == old(world).spawn_timer,
        final(world).waypoints == old(world).waypoints,
        final(world).next_id == old(world).next_id,
        final(world).despawn_timer == old(world).despawn_timer.spec_tick(dt_ms as int),
        final(world).obstacles@ == if old(world).despawn_timer.spec_fired(dt_ms as int)
            && old(world).obstacles@.len() > 0 {
            old(world).obstacles@.remove(0)
        } else {
            old(world).obstacles@
        },
        *final(state) == if old(world).obstacles@.len() == 0 {
            crate::ApplicationState::GameEnd
        } else {
            *old(state)
        },
{
    let was_empty = world.obstacles.len() == 0;
    let fired = world.despawn_timer.tick(dt_ms);
    if fired && world.obstacles.len() > 0 {
        world.obstacles.remove(0);
    }
    if was_empty {
        *state = crate::ApplicationState::GameEnd;
    }
}

/// How many of the tick's events are waypoint passes.
pub open spec fn spec_waypoint_hits(events: Seq<CollideEvent>) -> int
    decreases events.len(),
{
    if events.len() == 0 {
        0
    } else {
        spec_waypoint_hits(events.drop_last()) + if events.last().other is Waypoint {
            1int
        } else {
            0int
        }
    }
}

/// The number of waypoint passes is between zero and the number of events.
pub proof fn lemma_waypoint_hits_bounds(events: Seq<CollideEvent>)
    ensures
        0 <= spec_waypoint_hits(events) <= events.len(),
    decreases events.len(),
{
    if events.len() > 0 {
        lemma_waypoint_hits_bounds(events.drop_last());
    }
}

/// Whether some event of the tick passes the waypoint with this id.
pub open spec fn spec_hits_id(events: Seq<CollideEvent>, id: u64) -> bool
    decreases events.len(),
{
    if events.len() == 0 {
        false
    } else {
        spec_hits_id(events.drop_last(), id) || events.last().other == CollideWith::Waypoint(id)
    }
}

/// The waypoints that survive the tick: those no event passed.
pub open spec fn spec_surviving_waypoints(wps: Seq<Waypoint>, events: Seq<CollideEvent>) -> Seq<
    Waypoint,
>
    decreases wps.len(),
{
    if wps.len() == 0 {
        Seq::empty()
    } else {
        spec_surviving_waypoints(wps.drop_last(), events) + (if spec_hits_id(
            events,
            wps.last().id,
        ) {
            Seq::empty()
        } else {
            seq![wps.last()]
        })
    }
}

/// Whether any of the tick's events passes the waypoint with this id.
fn hits_id(events: &Vec<CollideEvent>, id: u64) -> (r: bool)
    ensures
        r == spec_hits_id(events@, id),
{
    let mut found = false;
    let mut idx: usize = 0;
    while idx < events.len()
        invariant
            idx <= events@.len(),
            found == spec_hits_id(events@.take(idx as int), id),
        decreases events@.len() - idx,
    {
        proof {
            assert(events@.take(idx + 1).drop_last() =~= events@.take(idx as int));
            assert(events@.take(idx + 1).last() == events@[idx as int]);
        }
        match events[idx].other {
            CollideWith::Waypoint(wid) => {
                if wid == id {
                    found = true;
                }
            },
            CollideWith::Obstacle => {},
        }
        idx = idx + 1;
    }
    proof {
        assert(events@.take(events@.len() as int) =~= events@);
    }
    found
}

/// Reads the tick's collision events for the world: every waypoint pass
/// scores one point and despawns the passed waypoint.
pub fn collide_event_handler(
    events: &Vec<CollideEvent>,
    scoreboard: &mut ScoreBoard,
    waypoints: &mut Vec<Waypoint>,
)
    requires
        old(scoreboard).score + spec_waypoint_hits(events@) <= u32::MAX,
        forall|i: int| 0 <= i < old(waypoints)@.len() ==> (#[trigger] old(waypoints)@[i]).wf(),
    ensures
        final(scoreboard).score == old(scoreboard).score + spec_waypoint_hits(events@),
        final(waypoints)@ == spec_surviving_waypoints(old(waypoints)@, events@),
        forall|i: int| 0 <= i < final(waypoints)@.len() ==> (#[trigger] final(waypoints)@[i]).wf(),
{
    proof {
        lemma_waypoint_hits_bounds(events@);
    }
    let mut hits: usize = 0;
    let mut idx: usize = 0;
    while idx < events.len()
        invariant
            idx <= events@.len(),
            hits == spec_waypoint_hits(events@.take(idx as int)),
            hits <= idx,
        decreases events@.len() - idx,
    {
        proof {
            assert(events@.take(idx + 1).drop_last() =~= events@.take(idx as int));
            assert(events@.take(idx + 1).last() == events@[idx as int]);
        }
        match events[idx].other {
            CollideWith::Waypoint(_) => {
                hits = hits + 1;
            },
            CollideWith::Obstacle => {},
        }
        idx = idx + 1;
    }
    proof {
        assert(events@.take(events@.len() as int) =~= events@);
    }
    scoreboard.score = scoreboard.score + hits as u32;

    let mut kept: Vec<Waypoint> = Vec::new();
    let mut jdx: usize = 0;
    while jdx < waypoints.len()
        invariant
            jdx <= waypoints@.len(),
            waypoints@ == old(waypoints)@,
            forall|i: int| 0 <= i < waypoints@.len() ==> (#[trigger] waypoints@[i]).wf(),
            kept@ == spec_surviving_waypoints(waypoints@.take(jdx as int), events@),
            forall|i: int| 0 <= i < kept@.len() ==> (#[trigger] kept@[i]).wf(),
        decreases waypoints@.len() - jdx,
    {
        proof {
            assert(waypoints@.take(jdx + 1).drop_last() =~= waypoints@.take(jdx as int));
            assert(waypoints@.take(jdx + 1).last() == waypoints@[jdx as int]);
        }
        let wp = waypoints[jdx];
        if !hits_id(events, wp.id) {
            kept.push(wp);
        }
        jdx = jdx + 1;
    }
    proof {
        assert(waypoints@.take(waypoints@.len() as int) =~= waypoints@);
    }
    *waypoints = kept;
}

/// Clears the score when a new run was requested, and otherwise leaves it.
pub fn restart_event_handler(restart_requested: bool, scoreboard: &mut ScoreBoard)
    ensures
        final(scoreboard).score == if restart_requested {
            0
        } else {
            old(scoreboard).score
        },
{
    if restart_requested {
        scoreboard.score = 0;
    }
}

/// A wall after one integrator step of `dt` milliseconds.
pub open spec fn spec_moved_obstacle(ob: Obstacle, dt: int) -> Obstacle {
    Obstacle { body: crate::physics::spec_integrate(ob.body, dt), size: ob.size }
}

/// A waypoint after one integrator step of `dt` milliseconds.
pub open spec fn spec_moved_waypoint(wp: Waypoint, dt: int) -> Waypoint {
    Waypoint { id: wp.id, body: crate::physics::spec_integrate(wp.body, dt), size: wp.size }
}

/// One integrator step for every obstacle and waypoint body in the world.
pub fn move_world_bodies(world: &mut WorldState, dt_ms: u32)
    requires
        old(world).wf(),
        dt_ms <= crate::physics::DT_MAX_MS,
    ensures
        final(world).wf(),
        final(world).top_border == old(world).top_border,
        final(world).bottom_border == old(world).bottom_border,
        final(world).scoreboard == old(world).scoreboard,
        final(world).spawn_timer == old(world).spawn_timer,
        final(world).despawn_timer == old(world).despawn_timer,
        final(world).next_id == old(world).next_id,
        final(world).obstacles@.len() == old(world).obstacles@.len(),
        final(world).waypoints@.len() == old(world).waypoints@.len(),
        forall|i: int|
            0 <= i < old(world).obstacles@.len() ==> #[trigger] final(world).obstacles@[i]
                == spec_moved_obstacle(old(world).obstacles@[i], dt_ms as int),
        forall|i: int|
            0 <= i < old(world).waypoints@.len() ==> #[trigger] final(world).waypoints@[i]
                == spec_moved_waypoint(old(world).waypoints@[i], dt_ms as int),
{
    let mut idx: usize = 0;
    while idx < world.obstacles.len()
        invariant
            idx <= world.obstacles@.len(),
            world.obstacles@.len() == old(world).obstacles@.len(),
            dt_ms <= crate::physics::DT_MAX_MS,
            world.top_border == old(world).top_border,
            world.bottom_border == old(world).bottom_border,
            world.scoreboard == old(world).scoreboard,
            world.spawn_timer == old(world).spawn_timer,
            world.despawn_timer == old(world).despawn_timer,
            world.next_id == old(world).next_id,
            world.waypoints == old(world).waypoints,
            forall|i: int|
                idx <= i < world.obstacles@.len() ==> #[trigger] world.obstacles@[i]
                    == old(world).obstacles@[i],
            forall|i: int|
                0 <= i < world.obstacles@.len() ==> (#[trigger] old(world).obstacles@[i]).wf(),
            forall|i: int|
                0 <= i < idx ==> #[trigger] world.obstacles@[i] == spec_moved_obstacle(
                    old(world).obstacles@[i],
                    dt_ms as int,
                ),
            forall|i: int|
                0 <= i < world.obstacles@.len() ==> (#[trigger] world.obstacles@[i]).wf(),
        decreases world.obstacles@.len() - idx,
    {
        let mut ob = world.obstacles[idx];
        crate::physics::integrate(&mut ob.body, dt_ms);
        world.obstacles.set(idx, ob);
        idx = idx + 1;
    }
    let mut jdx: usize = 0;
    while jdx < world.waypoints.len()
        invariant
            jdx <= world.waypoints@.len(),
            world.waypoints@.len() == old(world).waypoints@.len(),
            dt_ms <= crate::physics::DT_MAX_MS,
            world.top_border == old(world).top_border,
            world.bottom_border == old(world).bottom_border,
            world.scoreboard == old(world).scoreboard,
            world.spawn_timer == old(world).spawn_timer,
            world.despawn_timer == old(world).despawn_timer,
            world.next_id == old(world).next_id,
            world.obstacles@.len() == old(world).obstacles@.len(),
            forall|i: int|
                0 <= i < old(world).obstacles@.len() ==> #[trigger] world.obstacles@[i]
                    == spec_moved_obstacle(old(world).obstacles@[i], dt_ms as int),
            forall|i: int|
                0 <= i < world.obstacles@.len() ==> (#[trigger] world.obstacles@[i]).wf(),
            forall|i: int|
                jdx <= i < world.waypoints@.len() ==> #[trigger] world.waypoints@[i]
                    == old(world).waypoints@[i],
            forall|i: int|
                0 <= i < world.waypoints@.len() ==> (#[trigger] old(world).waypoints@[i]).wf(),
            forall|i: int|
                0 <= i < jdx ==> #[trigger] world.waypoints@[i] == spec_moved_waypoint(
                    old(world).waypoints@[i],
                    dt_ms as int,
                ),
            forall|i: int|
                0 <= i < world.waypoints@.len() ==> (#[trigger] world.waypoints@[i]).wf(),
        decreases world.waypoints@.len() - jdx,
    {
        let mut wp = world.waypoints[jdx];
        crate::physics::integrate(&mut wp.body, dt_ms);
        world.waypoints.set(jdx, wp);
        jdx = jdx + 1;
    }
}

} // verus!
