use flappy_bird::physics::CollideEvent;
use flappy_bird::physics::CollideWith;
use flappy_bird::physics::RigidBody;
use flappy_bird::physics::Vec2i;
use flappy_bird::world::Obstacle;
use flappy_bird::world::ScoreBoard;
use flappy_bird::world::Waypoint;
use flappy_bird::world::clear_world;
use flappy_bird::world::collide_event_handler;
use flappy_bird::world::draw_gap_position;
use flappy_bird::world::gap_from_random;
use flappy_bird::world::restart_event_handler;
use flappy_bird::world::setup_world;
use flappy_bird::world::spawn_obstacle;
use flappy_bird::world::update_world;
use flappy_bird::world::GAP_POSITION_MAX;
use flappy_bird::world::GAP_POSITION_MIN;
use flappy_bird::world::OBSTACLE_WIDTH;
use flappy_bird::world::WORLD_LEFT;
use flappy_bird::world::WORLD_RIGHT;
use flappy_bird::ApplicationState;

#[test]
fn spawned_pair_has_exact_geometry() {
    // A gap centered 400 pixels above the bottom splits the walls evenly.
    let (top, bottom, wp) = spawn_obstacle(400_000, 42);
    assert_eq!(top.size, Vec2i { x: OBSTACLE_WIDTH, y: 300_000 });
    assert_eq!(top.body.position, Vec2i { x: WORLD_RIGHT, y: 250_000 });
    assert_eq!(top.body.velocity, Vec2i { x: -120_000, y: 0 });
    assert_eq!(bottom.size, Vec2i { x: OBSTACLE_WIDTH, y: 300_000 });
    assert_eq!(bottom.body.position, Vec2i { x: WORLD_RIGHT, y: -250_000 });
    assert_eq!(wp.id, 42);
    assert_eq!(wp.body.position, Vec2i { x: WORLD_RIGHT, y: 0 });
    assert_eq!(wp.size, Vec2i { x: OBSTACLE_WIDTH, y: 200_000 });
}

#[test]
fn spawned_walls_fill_everything_but_the_gap() {
    // The wall heights plus the opening always cover the world height.
    let (top, bottom, _) = spawn_obstacle(333_333, 0);
    assert_eq!(top.size.y + bottom.size.y + 200_000, 800_000);
    let (top, bottom, _) = spawn_obstacle(GAP_POSITION_MIN, 0);
    assert_eq!(top.size.y + bottom.size.y + 200_000, 800_000);
    let (top, bottom, _) = spawn_obstacle(GAP_POSITION_MAX, 0);
    assert_eq!(top.size.y + bottom.size.y + 200_000, 800_000);
}

#[test]
fn gap_from_random_clamps_low_draws() {
    assert_eq!(gap_from_random(0), GAP_POSITION_MIN);
    assert_eq!(gap_from_random(199_999), GAP_POSITION_MIN);
}

#[test]
fn gap_from_random_clamps_high_draws() {
    assert_eq!(gap_from_random(700_000), GAP_POSITION_MAX);
    assert_eq!(gap_from_random(800_000), GAP_POSITION_MAX);
}

#[test]
fn gap_from_random_keeps_the_band_edges() {
    assert_eq!(gap_from_random(200_000), GAP_POSITION_MIN);
    assert_eq!(gap_from_random(600_000), GAP_POSITION_MAX);
}

#[test]
fn gap_from_random_keeps_draws_inside_the_band() {
    assert_eq!(gap_from_random(300_000), 300_000);
    // The draw wraps at one more than the world height.
    assert_eq!(gap_from_random(800_001), GAP_POSITION_MIN);
    assert_eq!(gap_from_random(u32::MAX), 561_927);
}

#[test]
fn drawn_gap_positions_stay_inside_the_band() {
    for _ in 0..100 {
        let gap = draw_gap_position();
        assert!(GAP_POSITION_MIN <= gap && gap <= GAP_POSITION_MAX);
    }
}

#[test]
fn fresh_world_is_empty_with_borders_in_place() {
    let w = setup_world();
    assert_eq!(w.obstacles.len(), 0);
    assert_eq!(w.waypoints.len(), 0);
    assert_eq!(w.scoreboard.score, 0);
    assert_eq!(w.next_id, 0);
    assert_eq!(w.top_border.center, Vec2i { x: 0, y: 400_000 });
    assert_eq!(w.top_border.half, Vec2i { x: WORLD_RIGHT, y: 10_000 });
    assert_eq!(w.bottom_border.center, Vec2i { x: 0, y: -400_000 });
    assert_eq!(w.spawn_timer.duration_ms, 2_000);
    assert_eq!(w.despawn_timer.duration_ms, 200);
}

fn drifted_obstacle(x: i64) -> Obstacle {
    Obstacle {
        body: RigidBody {
            position: Vec2i { x, y: 0 },
            velocity: Vec2i { x: -120_000, y: 0 },
            acceleration: Vec2i { x: 0, y: 0 },
        },
        size: Vec2i { x: OBSTACLE_WIDTH, y: 100_000 },
    }
}

fn drifted_waypoint(id: u64, x: i64) -> Waypoint {
    Waypoint {
        id,
        body: RigidBody {
            position: Vec2i { x, y: 0 },
            velocity: Vec2i { x: -120_000, y: 0 },
            acceleration: Vec2i { x: 0, y: 0 },
        },
        size: Vec2i { x: OBSTACLE_WIDTH, y: 200_000 },
    }
}

#[test]
fn update_world_despawns_entities_past_the_left_edge() {
    let mut w = setup_world();
    w.obstacles.push(drifted_obstacle(WORLD_LEFT - 1));
    w.obstacles.push(drifted_obstacle(0));
    w.waypoints.push(drifted_waypoint(1, WORLD_LEFT - 1));
    w.waypoints.push(drifted_waypoint(2, WORLD_LEFT));
    // Fifty milliseconds: far from the two-second spawn period.
    update_world(&mut w, 50);
    assert_eq!(w.obstacles.len(), 1);
    assert_eq!(w.obstacles[0].body.position.x, 0);
    assert_eq!(w.waypoints.len(), 1);
    assert_eq!(w.waypoints[0].id, 2);
    assert_eq!(w.next_id, 0);
}

#[test]
fn update_world_spawns_a_pair_when_the_timer_fires() {
    let mut w = setup_world();
    update_world(&mut w, 2_000);
    assert_eq!(w.obstacles.len(), 2);
    assert_eq!(w.waypoints.len(), 1);
    assert_eq!(w.waypoints[0].id, 0);
    assert_eq!(w.next_id, 1);
    assert_eq!(w.obstacles[0].body.position.x, WORLD_RIGHT);
    assert_eq!(w.obstacles[1].body.position.x, WORLD_RIGHT);
    assert_eq!(w.waypoints[0].body.position.x, WORLD_RIGHT);
    assert_eq!(w.obstacles[0].size.y + w.obstacles[1].size.y, 600_000);
    assert_eq!(w.spawn_timer.elapsed_ms, 0);
}

#[test]
fn clear_world_removes_one_wall_per_firing() {
    let mut w = setup_world();
    w.obstacles.push(drifted_obstacle(0));
    w.obstacles.push(drifted_obstacle(100));
    let mut state = ApplicationState::GameEnding;
    clear_world(&mut w, 200, &mut state);
    assert_eq!(w.obstacles.len(), 1);
    assert_eq!(w.obstacles[0].body.position.x, 100);
    assert_eq!(state, ApplicationState::GameEnding);
    clear_world(&mut w, 200, &mut state);
    assert_eq!(w.obstacles.len(), 0);
    assert_eq!(state, ApplicationState::GameEnding);
    // Only a frame that already began with an empty world moves on.
    clear_world(&mut w, 10, &mut state);
    assert_eq!(state, ApplicationState::GameEnd);
}

#[test]
fn clear_world_waits_for_its_timer() {
    let mut w = setup_world();
    w.obstacles.push(drifted_obstacle(0));
    let mut state = ApplicationState::GameEnding;
    clear_world(&mut w, 100, &mut state);
    assert_eq!(w.obstacles.len(), 1);
    assert_eq!(state, ApplicationState::GameEnding);
}

#[test]
fn waypoint_passes_score_and_despawn() {
    let mut score = ScoreBoard { score: 3 };
    let mut waypoints = vec![drifted_waypoint(5, 0), drifted_waypoint(6, 100)];
    let events = vec![
        CollideEvent { other: CollideWith::Waypoint(5) },
        CollideEvent { other: CollideWith::Obstacle },
    ];
    collide_event_handler(&events, &mut score, &mut waypoints);
    assert_eq!(score.score, 4);
    assert_eq!(waypoints.len(), 1);
    assert_eq!(waypoints[0].id, 6);
}

#[test]
fn obstacle_hits_do_not_score() {
    let mut score = ScoreBoard { score: 0 };
    let mut waypoints: Vec<Waypoint> = Vec::new();
    let events = vec![CollideEvent { other: CollideWith::Obstacle }];
    collide_event_handler(&events, &mut score, &mut waypoints);
    assert_eq!(score.score, 0);
}

#[test]
fn restart_clears_the_score() {
    let mut score = ScoreBoard { score: 17 };
    restart_event_handler(false, &mut score);
    assert_eq!(score.score, 17);
    restart_event_handler(true, &mut score);
    assert_eq!(score.score, 0);
}
