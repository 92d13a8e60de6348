//! The whole game in one value, and one frame of it.
//!
//! The engine shell polls input, draws sprites and calls [`game_tick`] once
//! per frame with the frame's time delta; everything the game decides
//! happens here, in a fixed order that mirrors the engine's schedule:
//! menu, restart handling, input, player movement, integration, collision,
//! collision handling, world update or clearing, and sprite animation.

use vstd::prelude::*;
use crate::ApplicationState;
use crate::physics::Aabb;
use crate::physics::CollideEvent;
use crate::physics::RigidBody;
use crate::physics::Vec2i;
use crate::physics::DT_MAX_MS;
use crate::player::Player;
use crate::player::controller::Controller;
use crate::player::sprites::AnimationIndices;
use crate::player::sprites::AnimationTimer;
use crate::player::sprites::AnimationUpDown;
use crate::player::sprites::SpriteOrientation;
use crate::timer::RepeatingTimer;
use crate::world::Obstacle;
use crate::world::Waypoint;
use crate::world::WorldState;
use crate::world::spec_moved_obstacle;
use crate::world::spec_moved_waypoint;

verus! {

/// Height of the player above the world center at the start of a game, in
/// milli-pixels (40 pixels).
pub const PLAYER_START_Y: i64 = 40_000;

/// The sprite scale of the player (four pixels of screen per texel).
pub const PLAYER_SCALE: i64 = 4_000;

/// Half-extent of the player's collider box: six times the sprite scale.
pub const PLAYER_BOX_HALF: i64 = PLAYER_SCALE * 6;

/// Period of the sprite animation, in milliseconds.
pub const ANIMATION_PERIOD_MS: u32 = 100;

/// The player's collider box around a position.
pub open spec fn spec_player_box(position: Vec2i) -> Aabb {
    Aabb { center: position, half: Vec2i { x: PLAYER_BOX_HALF, y: PLAYER_BOX_HALF } }
}

/// Computes the player's collider box.
pub fn player_box(position: Vec2i) -> (b: Aabb)
    requires
        crate::physics::in_fx_range(position.x as int),
        crate::physics::in_fx_range(position.y as int),
    ensures
        b == spec_player_box(position),
        b.wf(),
{
    Aabb { center: position, half: Vec2i { x: PLAYER_BOX_HALF, y: PLAYER_BOX_HALF } }
}

/// The keys and touches the shell polled this frame.
#[derive(Clone, Copy, Debug, PartialEq, Eq, Structural)]
pub struct InputSnapshot {
    pub space_pressed: bool,
    pub up_pressed: bool,
    pub touch_active: bool,
}

/// Every wall of a row after one integrator step each.
pub open spec fn spec_moved_obstacles(obs: Seq<Obstacle>, dt: int) -> Seq<Obstacle>
    decreases obs.len(),
{
    if obs.len() == 0 {
        Seq::empty()
    } else {
        spec_moved_obstacles(obs.drop_last(), dt) + seq![spec_moved_obstacle(obs.last(), dt)]
    }
}

/// Every waypoint of a row after one integrator step each.
pub open spec fn spec_moved_waypoints(wps: Seq<Waypoint>, dt: int) -> Seq<Waypoint>
    decreases wps.len(),
{
    if wps.len() == 0 {
        Seq::empty()
    } else {
        spec_moved_waypoints(wps.drop_last(), dt) + seq![spec_moved_waypoint(wps.last(), dt)]
    }
}

/// A row equal to the moved walls index by index is the moved row.
pub proof fn lemma_moved_obstacles_pointwise(obs: Seq<Obstacle>, moved: Seq<Obstacle>, dt: int)
    requires
        moved.len() == obs.len(),
        forall|i: int| 0 <= i < obs.len() ==> moved[i] == spec_moved_obstacle(obs[i], dt),
    ensures
        moved == spec_moved_obstacles(obs, dt),
    decreases obs.len(),
{
    if obs.len() > 0 {
        lemma_moved_obstacles_pointwise(obs.drop_last(), moved.drop_last(), dt);
        assert(moved =~= moved.drop_last() + seq![moved.last()]);
    }
}

/// A row equal to the moved waypoints index by index is the moved row.
pub proof fn lemma_moved_waypoints_pointwise(wps: Seq<Waypoint>, moved: Seq<Waypoint>, dt: int)
    requires
        moved.len() == wps.len(),
        forall|i: int| 0 <= i < wps.len() ==> moved[i] == spec_moved_waypoint(wps[i], dt),
    ensures
        moved == spec_moved_waypoints(wps, dt),
    decreases wps.len(),
{
    if wps.len() > 0 {
        lemma_moved_waypoints_pointwise(wps.drop_last(), moved.drop_last(), dt);
        assert(moved =~= moved.drop_last() + seq![moved.last()]);
    }
}

/// The collider boxes of a row of walls, in order.
pub open spec fn spec_obstacle_boxes(obs: Seq<Obstacle>) -> Seq<Aabb>
    decreases obs.len(),
{
    if obs.len() == 0 {
        Seq::empty()
    } else {
        spec_obstacle_boxes(obs.drop_last()) + seq![obs.last().spec_collider_box()]
    }
}

/// The id and collider box of each waypoint of a row, in order.
pub open spec fn spec_waypoint_entries(wps: Seq<Waypoint>) -> Seq<(u64, Aabb)>
    decreases wps.len(),
{
    if wps.len() == 0 {
        Seq::empty()
    } else {
        spec_waypoint_entries(wps.drop_last()) + seq![(wps.last().id, wps.last().spec_collider_box())]
    }
}

/// Every solid box of the world: the two borders first, then the walls.
pub open spec fn spec_world_boxes(w: WorldState) -> Seq<Aabb> {
    seq![w.top_border, w.bottom_border] + spec_obstacle_boxes(w.obstacles@)
}

/// Collects the world's solid collider boxes: the borders, then the walls.
fn collect_boxes(world: &WorldState) -> (v: Vec<Aabb>)
    requires
        world.wf(),
    ensures
        v@ == spec_world_boxes(*world),
        forall|i: int| 0 <= i < v@.len() ==> (#[trigger] v@[i]).wf(),
{
    let mut v: Vec<Aabb> = Vec::new();
    v.push(world.top_border);
    v.push(world.bottom_border);
    let mut idx: usize = 0;
    while idx < world.obstacles.len()
        invariant
            idx <= world.obstacles@.len(),
            world.wf(),
            v@ == seq![world.top_border, world.bottom_border] + spec_obstacle_boxes(
                world.obstacles@.take(idx as int),
            ),
            forall|i: int| 0 <= i < v@.len() ==> (#[trigger] v@[i]).wf(),
        decreases world.obstacles@.len() - idx,
    {
        proof {
            assert(world.obstacles@.take(idx + 1).drop_last() =~= world.obstacles@.take(
                idx as int,
            ));
            assert(world.obstacles@.take(idx + 1).last() == world.obstacles@[idx as int]);
        }
        let b = world.obstacles[idx].collider_box();
        v.push(b);
        idx = idx + 1;
    }
    proof {
        assert(world.obstacles@.take(world.obstacles@.len() as int) =~= world.obstacles@);
    }
    v
}

/// Collects each waypoint's id and collider box.
fn collect_waypoint_entries(world: &WorldState) -> (v: Vec<(u64, Aabb)>)
    requires
        world.wf(),
    ensures
        v@ == spec_waypoint_entries(world.waypoints@),
        forall|i: int| 0 <= i < v@.len() ==> (#[trigger] v@[i]).1.wf(),
{
    let mut v: Vec<(u64, Aabb)> = Vec::new();
    let mut idx: usize = 0;
    while idx < world.waypoints.len()
        invariant
            idx <= world.waypoints@.len(),
            world.wf(),
            v@ == spec_waypoint_entries(world.waypoints@.take(idx as int)),
            forall|i: int| 0 <= i < v@.len() ==> (#[trigger] v@[i]).1.wf(),
        decreases world.waypoints@.len() - idx,
    {
        proof {
            assert(world.waypoints@.take(idx + 1).drop_last() =~= world.waypoints@.take(
                idx as int,
            ));
            assert(world.waypoints@.take(idx + 1).last() == world.waypoints@[idx as int]);
        }
        let wp = &world.waypoints[idx];
        let b = wp.collider_box();
        let id = wp.id;
        v.push((id, b));
        idx = idx + 1;
    }
    proof {
        assert(world.waypoints@.take(world.waypoints@.len() as int) =~= world.waypoints@);
    }
    v
}

/// The whole game: the screen flow, the player with its input and body,
/// the world, and the sprite-animation bookkeeping.
#[derive(Debug)]
pub struct Game {
    pub app_state: ApplicationState,
    pub player: Player,
    pub controller: Controller,
    pub player_body: RigidBody,
    pub world: WorldState,
    pub anim_indices: AnimationIndices,
    pub anim_timer: AnimationTimer,
    pub anim_up: AnimationUpDown,
    pub atlas_index: usize,
    pub orientation: SpriteOrientation,
}

impl Game {
    /// The body, the world and the animation timer are all well formed.
    pub open spec fn wf(self) -> bool {
        &&& self.player_body.wf()
        &&& self.world.wf()
        &&& self.anim_timer.0.wf()
    }

    /// A fresh game on the title screen: the player idle in the air a little
    /// above the center, the world empty, the score cleared.
    pub fn new() -> (g: Game)
        ensures
            g.wf(),
            g.app_state is LandingScreen,
            g.player.state is Idle,
            g.player.attitude is InAir,
            g.controller.action is Neutral,
            g.player_body.position == (Vec2i { x: 0, y: PLAYER_START_Y }),
            g.player_body.velocity == (Vec2i { x: 0, y: 0 }),
            g.player_body.acceleration == (Vec2i { x: 0, y: 0 }),
            g.world.obstacles@.len() == 0,
            g.world.waypoints@.len() == 0,
            g.world.scoreboard.score == 0,
            g.world.top_border == crate::world::spec_top_border(),
            g.world.bottom_border == crate::world::spec_bottom_border(),
            g.atlas_index == 0,
            g.anim_up.0 == true,
            g.orientation is Upright,
            g.anim_indices == (AnimationIndices { first: 0, last: 5 }),
    {
        Game {
            app_state: ApplicationState::LandingScreen,
            player: Player::new(),
            controller: Controller::new(),
            player_body: RigidBody {
                position: Vec2i { x: 0, y: PLAYER_START_Y },
                velocity: Vec2i { x: 0, y: 0 },
                acceleration: Vec2i { x: 0, y: 0 },
            },
            world: crate::world::setup_world(),
            anim_indices: AnimationIndices { first: 0, last: 5 },
            anim_timer: AnimationTimer(RepeatingTimer::new(ANIMATION_PERIOD_MS)),
            anim_up: AnimationUpDown(true),
            atlas_index: 0,
            orientation: SpriteOrientation::Upright,
        }
    }
}

/// Waypoint passes split over a concatenation of event rows.
pub proof fn lemma_waypoint_hits_concat(a: Seq<CollideEvent>, b: Seq<CollideEvent>)
    ensures
        crate::world::spec_waypoint_hits(a + b) == crate::world::spec_waypoint_hits(a)
            + crate::world::spec_waypoint_hits(b),
    decreases b.len(),
{
    if b.len() == 0 {
        assert(a + b =~= a);
    } else {
        lemma_waypoint_hits_concat(a, b.drop_last());
        assert((a + b).drop_last() =~= a + b.drop_last());
    }
}

/// Obstacle collisions never count as waypoint passes.
pub proof fn lemma_obstacle_events_no_hits(player: Aabb, boxes: Seq<Aabb>)
    ensures
        crate::world::spec_waypoint_hits(crate::physics::spec_obstacle_events(player, boxes))
            == 0,
    decreases boxes.len(),
{
    assert(crate::world::spec_waypoint_hits(Seq::<CollideEvent>::empty()) == 0);
    if boxes.len() > 0 {
        lemma_obstacle_events_no_hits(player, boxes.drop_last());
        if crate::physics::spec_intersects(player, boxes.last()) {
            let ev = seq![CollideEvent { other: crate::physics::CollideWith::Obstacle }];
            assert(ev.drop_last() =~= Seq::<CollideEvent>::empty());
            assert(crate::world::spec_waypoint_hits(ev) == 0);
            lemma_waypoint_hits_concat(
                crate::physics::spec_obstacle_events(player, boxes.drop_last()),
                ev,
            );
        } else {
            lemma_waypoint_hits_concat(
                crate::physics::spec_obstacle_events(player, boxes.drop_last()),
                Seq::empty(),
            );
        }
    }
}

/// A row of waypoint boxes yields at most one pass per box.
pub proof fn lemma_waypoint_events_hits_bound(player: Aabb, wps: Seq<(u64, Aabb)>)
    ensures
        0 <= crate::world::spec_waypoint_hits(
            crate::physics::spec_waypoint_events(player, wps),
        ) <= wps.len(),
    decreases wps.len(),
{
    assert(crate::world::spec_waypoint_hits(Seq::<CollideEvent>::empty()) == 0);
    if wps.len() > 0 {
        lemma_waypoint_events_hits_bound(player, wps.drop_last());
        if crate::physics::spec_intersects(player, wps.last().1) {
            let ev = seq![
                CollideEvent { other: crate::physics::CollideWith::Waypoint(wps.last().0) },
            ];
            assert(ev.drop_last() =~= Seq::<CollideEvent>::empty());
            assert(crate::world::spec_waypoint_hits(ev) == 1);
            lemma_waypoint_hits_concat(
                crate::physics::spec_waypoint_events(player, wps.drop_last()),
                ev,
            );
        } else {
            lemma_waypoint_hits_concat(
                crate::physics::spec_waypoint_events(player, wps.drop_last()),
                Seq::empty(),
            );
        }
    }
}

/// There is one entry per waypoint.
pub proof fn lemma_waypoint_entries_len(wps: Seq<Waypoint>)
    ensures
        spec_waypoint_entries(wps).len() == wps.len(),
    decreases wps.len(),
{
    if wps.len() > 0 {
        lemma_waypoint_entries_len(wps.drop_last());
    }
}

/// The tick's collision events count at most one waypoint pass per
/// waypoint in the world.
pub proof fn lemma_tick_hits_bound(player: Aabb, boxes: Seq<Aabb>, wps: Seq<(u64, Aabb)>)
    ensures
        0 <= crate::world::spec_waypoint_hits(
            crate::physics::spec_collision(player, boxes, wps),
        ) <= wps.len(),
{
    lemma_waypoint_hits_concat(
        crate::physics::spec_obstacle_events(player, boxes),
        crate::physics::spec_waypoint_events(player, wps),
    );
    lemma_obstacle_events_no_hits(player, boxes);
    lemma_waypoint_events_hits_bound(player, wps);
}

/// Whether this frame requests a restart.
pub open spec fn spec_tick_restart(g: Game, input: InputSnapshot) -> bool {
    crate::spec_menu_restart(g.app_state, input.space_pressed)
}

/// The screen after the menu ran.
pub open spec fn spec_tick_menu_state(g: Game, input: InputSnapshot) -> ApplicationState {
    crate::spec_menu_transition(g.app_state, input.space_pressed)
}

/// The player after the restart handler ran.
pub open spec fn spec_tick_player_restarted(g: Game, input: InputSnapshot) -> Player {
    if spec_tick_restart(g, input) {
        Player { state: g.player.state, attitude: crate::player::PlayerAttitude::InAir }
    } else {
        g.player
    }
}

/// The score after the restart handler ran.
pub open spec fn spec_tick_score_restarted(g: Game, input: InputSnapshot) -> u32 {
    if spec_tick_restart(g, input) {
        0u32
    } else {
        g.world.scoreboard.score
    }
}

/// The controller after input was read; outside a run it is untouched.
pub open spec fn spec_tick_controller(g: Game, input: InputSnapshot) -> Controller {
    if spec_tick_menu_state(g, input) is InGame {
        Controller {
            direction: g.controller.direction,
            action: crate::player::controller::spec_action(
                input.space_pressed,
                input.up_pressed,
                input.touch_active,
            ),
        }
    } else {
        g.controller
    }
}

/// The player's body after movement and integration.  During a run the
/// movement rules and the integrator both apply; on the ending screen only
/// the movement rules run, parking the crashed body; on the menu screens
/// the body is untouched.
pub open spec fn spec_tick_player_body(g: Game, input: InputSnapshot, dt: int) -> RigidBody {
    let s1 = spec_tick_menu_state(g, input);
    if s1 is InGame {
        crate::physics::spec_integrate(
            crate::player::movement::spec_player_movement(
                spec_tick_player_restarted(g, input),
                spec_tick_controller(g, input).action,
                g.player_body,
            ).1,
            dt,
        )
    } else if s1 is GameEnding {
        crate::player::movement::spec_player_movement(
            spec_tick_player_restarted(g, input),
            g.controller.action,
            g.player_body,
        ).1
    } else {
        g.player_body
    }
}

/// The collision events of the frame: the moved player box against the
/// borders, the moved walls and the moved waypoints.  Outside a run no
/// collision test runs and there are no events.
pub open spec fn spec_tick_events(g: Game, input: InputSnapshot, dt: int) -> Seq<CollideEvent> {
    if spec_tick_menu_state(g, input) is InGame {
        crate::physics::spec_collision(
            spec_player_box(spec_tick_player_body(g, input, dt).position),
            seq![g.world.top_border, g.world.bottom_border] + spec_obstacle_boxes(
                spec_moved_obstacles(g.world.obstacles@, dt),
            ),
            spec_waypoint_entries(spec_moved_waypoints(g.world.waypoints@, dt)),
        )
    } else {
        Seq::empty()
    }
}

/// The screen the frame ends on: a run ends when the player hits something
/// solid, the clearing screen gives way to the game-over screen once the
/// world stood empty at the start of the frame.
pub open spec fn spec_tick_state(g: Game, input: InputSnapshot, dt: int) -> ApplicationState {
    let s1 = spec_tick_menu_state(g, input);
    if s1 is InGame {
        if crate::player::movement::spec_has_obstacle_hit(spec_tick_events(g, input, dt)) {
            ApplicationState::GameEnding
        } else {
            s1
        }
    } else if s1 is GameEnding {
        if g.world.obstacles@.len() == 0 {
            ApplicationState::GameEnd
        } else {
            s1
        }
    } else {
        s1
    }
}

/// The player the frame ends with.  On the ending screen the movement
/// rules still run, which is what turns the crashed player dead.
pub open spec fn spec_tick_player(g: Game, input: InputSnapshot, dt: int) -> Player {
    let p1 = spec_tick_player_restarted(g, input);
    let s1 = spec_tick_menu_state(g, input);
    if s1 is InGame {
        let p2 = crate::player::movement::spec_player_movement(
            p1,
            spec_tick_controller(g, input).action,
            g.player_body,
        ).0;
        if crate::player::movement::spec_has_obstacle_hit(spec_tick_events(g, input, dt)) {
            Player { state: p2.state, attitude: crate::player::PlayerAttitude::InWall }
        } else {
            p2
        }
    } else if s1 is GameEnding {
        crate::player::movement::spec_player_movement(p1, g.controller.action, g.player_body).0
    } else {
        p1
    }
}

/// The score the frame ends with: each waypoint pass of the frame is one
/// point on top of the (possibly just reset) score.
pub open spec fn spec_tick_score(g: Game, input: InputSnapshot, dt: int) -> int {
    if spec_tick_menu_state(g, input) is InGame {
        spec_tick_score_restarted(g, input) + crate::world::spec_waypoint_hits(
            spec_tick_events(g, input, dt),
        )
    } else {
        spec_tick_score_restarted(g, input) as int
    }
}

/// Touching anything solid ends the run: whenever a frame's events hold an
/// obstacle hit during a run, that frame ends on the ending screen with the
/// player in the wall.
pub proof fn lemma_crash_ends_run(g: Game, input: InputSnapshot, dt: int)
    requires
        spec_tick_menu_state(g, input) is InGame,
        crate::player::movement::spec_has_obstacle_hit(spec_tick_events(g, input, dt)),
    ensures
        spec_tick_state(g, input, dt) is GameEnding,
        spec_tick_player(g, input, dt).attitude is InWall,
{
}

/// The score never goes down within a run, and a restart is the one thing
/// that clears it: on a frame without a restart the score the frame ends
/// with is at least the score it began with, and on a restart frame the
/// score starts again from zero, counting only that frame's passes.
pub proof fn lemma_score_rules(g: Game, input: InputSnapshot, dt: int)
    ensures
        !spec_tick_restart(g, input) ==> spec_tick_score(g, input, dt)
            >= g.world.scoreboard.score,
        spec_tick_restart(g, input) ==> spec_tick_score(g, input, dt)
            == crate::world::spec_waypoint_hits(spec_tick_events(g, input, dt)),
        spec_tick_score(g, input, dt) >= 0,
{
    crate::world::lemma_waypoint_hits_bounds(spec_tick_events(g, input, dt));
    if !(spec_tick_menu_state(g, input) is InGame) {
        assert(crate::world::spec_waypoint_hits(Seq::<CollideEvent>::empty()) == 0);
    }
}

/// One frame of the whole game, in the fixed order: menu, restart
/// handling, input, player movement, integration of every body, collision,
/// collision handling, world update or clearing, and sprite animation.
/// Everything is pinned exactly except the gap of a freshly spawned
/// obstacle pair, which is a random draw inside the allowed band.
pub fn game_tick(game: &mut Game, input: InputSnapshot, dt_ms: u32)
    requires
        old(game).wf(),
        dt_ms <= DT_MAX_MS,
        old(game).world.scoreboard.score + old(game).world.waypoints@.len() <= u32::MAX,
        old(game).world.next_id < u64::MAX,
    ensures
        final(game).wf(),
        final(game).app_state == spec_tick_state(*old(game), input, dt_ms as int),
        final(game).player == spec_tick_player(*old(game), input, dt_ms as int),
        final(game).controller == spec_tick_controller(*old(game), input),
        final(game).player_body == spec_tick_player_body(*old(game), input, dt_ms as int),
        final(game).world.scoreboard.score == spec_tick_score(*old(game), input, dt_ms as int),
        final(game).world.top_border == old(game).world.top_border,
        final(game).world.bottom_border == old(game).world.bottom_border,
        final(game).anim_indices == old(game).anim_indices,
        final(game).anim_timer.0 == old(game).anim_timer.0.spec_tick(dt_ms as int),
        (
            final(game).atlas_index as int,
            final(game).anim_up.0,
            final(game).orientation,
        ) == crate::player::sprites::spec_animate(
            spec_tick_player(*old(game), input, dt_ms as int).state,
            old(game).anim_indices,
            old(game).atlas_index as int,
            old(game).anim_up.0,
            old(game).orientation,
            old(game).anim_timer.0.spec_fired(dt_ms as int),
        ),
        spec_tick_menu_state(*old(game), input) is InGame ==> {
            &&& final(game).world.spawn_timer == old(game).world.spawn_timer.spec_tick(
                dt_ms as int,
            )
            &&& final(game).world.despawn_timer == old(game).world.despawn_timer
        },
        spec_tick_menu_state(*old(game), input) is InGame && !old(
            game,
        ).world.spawn_timer.spec_fired(dt_ms as int) ==> {
            &&& final(game).world.obstacles@ == crate::world::spec_kept_obstacles(
                spec_moved_obstacles(old(game).world.obstacles@, dt_ms as int),
            )
            &&& final(game).world.waypoints@ == crate::world::spec_kept_waypoints(
                crate::world::spec_surviving_waypoints(
                    spec_moved_waypoints(old(game).world.waypoints@, dt_ms as int),
                    spec_tick_events(*old(game), input, dt_ms as int),
                ),
            )
            &&& final(game).world.next_id == old(game).world.next_id
        },
        spec_tick_menu_state(*old(game), input) is InGame && old(
            game,
        ).world.spawn_timer.spec_fired(dt_ms as int) ==> exists|gap: int|
            {
                &&& crate::world::GAP_POSITION_MIN <= gap <= crate::world::GAP_POSITION_MAX
                &&& final(game).world.obstacles@ == crate::world::spec_kept_obstacles(
                    spec_moved_obstacles(old(game).world.obstacles@, dt_ms as int),
                ) + seq![crate::world::spec_top_wall(gap), crate::world::spec_bottom_wall(gap)]
                &&& final(game).world.waypoints@ == crate::world::spec_kept_waypoints(
                    crate::world::spec_surviving_waypoints(
                        spec_moved_waypoints(old(game).world.waypoints@, dt_ms as int),
                        spec_tick_events(*old(game), input, dt_ms as int),
                    ),
                ) + seq![crate::world::spec_gap_waypoint(gap, old(game).world.next_id)]
                &&& final(game).world.next_id == old(game).world.next_id + 1
            },
        spec_tick_menu_state(*old(game), input) is GameEnding ==> {
            &&& final(game).world.obstacles@ == (if old(game).world.despawn_timer.spec_fired(
                dt_ms as int,
            ) && old(game).world.obstacles@.len() > 0 {
                old(game).world.obstacles@.remove(0)
            } else {
                old(game).world.obstacles@
            })
            &&& final(game).world.waypoints == old(game).world.waypoints
            &&& final(game).world.spawn_timer == old(game).world.spawn_timer
            &&& final(game).world.despawn_timer == old(game).world.despawn_timer.spec_tick(
                dt_ms as int,
            )
            &&& final(game).world.next_id == old(game).world.next_id
        },
        (spec_tick_menu_state(*old(game), input) is LandingScreen || spec_tick_menu_state(
            *old(game),
            input,
        ) is GameEnd) ==> {
            &&& final(game).world.obstacles == old(game).world.obstacles
            &&& final(game).world.waypoints == old(game).world.waypoints
            &&& final(game).world.spawn_timer == old(game).world.spawn_timer
            &&& final(game).world.despawn_timer == old(game).world.despawn_timer
            &&& final(game).world.next_id == old(game).world.next_id
        },
{
    let restart = crate::menu_control(&mut game.app_state, input.space_pressed);
    crate::player::restart_event_handler(restart, &mut game.player);
    crate::world::restart_event_handler(restart, &mut game.world.scoreboard);
    match game.app_state {
        ApplicationState::InGame => {
            crate::player::controller::keyboard_inputs(
                input.space_pressed,
                input.up_pressed,
                input.touch_active,
                &mut game.controller,
            );
            crate::player::movement::player_movement(
                &mut game.player_body,
                &game.controller,
                &mut game.player,
            );
            crate::physics::integrate(&mut game.player_body, dt_ms);
            crate::world::move_world_bodies(&mut game.world, dt_ms);
            proof {
                lemma_moved_obstacles_pointwise(
                    old(game).world.obstacles@,
                    game.world.obstacles@,
                    dt_ms as int,
                );
                lemma_moved_waypoints_pointwise(
                    old(game).world.waypoints@,
                    game.world.waypoints@,
                    dt_ms as int,
                );
            }
            let pbox = player_box(game.player_body.position);
            let boxes = collect_boxes(&game.world);
            let entries = collect_waypoint_entries(&game.world);
            let events = crate::physics::collision(&pbox, &boxes, &entries);
            proof {
                lemma_tick_hits_bound(pbox, boxes@, entries@);
                lemma_waypoint_entries_len(game.world.waypoints@);
            }
            crate::player::movement::collide_event_handler(
                &events,
                &mut game.player,
                &mut game.app_state,
            );
            crate::world::collide_event_handler(
                &events,
                &mut game.world.scoreboard,
                &mut game.world.waypoints,
            );
            crate::world::update_world(&mut game.world, dt_ms);
        },
        ApplicationState::GameEnding => {
            // The engine applies a state change a frame late, so the
            // movement system still runs once after a crash; that run is
            // what parks the body and turns the player dead.  The model
            // folds it into the ending screen's frames.
            crate::player::movement::player_movement(
                &mut game.player_body,
                &game.controller,
                &mut game.player,
            );
            crate::world::clear_world(&mut game.world, dt_ms, &mut game.app_state);
        },
        ApplicationState::LandingScreen => {},
        ApplicationState::GameEnd => {},
    }
    crate::player::sprites::animate_sprite(
        game.player.state,
        &game.anim_indices,
        dt_ms,
        &mut game.anim_timer,
        &mut game.atlas_index,
        &mut game.anim_up,
        &mut game.orientation,
    );
}

} // verus!
