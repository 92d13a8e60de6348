use flappy_bird::game::Game;
use flappy_bird::game::InputSnapshot;
use flappy_bird::game::game_tick;
use flappy_bird::menu_control;
use flappy_bird::menu_message;
use flappy_bird::physics::RigidBody;
use flappy_bird::physics::Vec2i;
use flappy_bird::player::PlayerAttitude;
use flappy_bird::player::PlayerState;
use flappy_bird::world::Obstacle;
use flappy_bird::world::Waypoint;
use flappy_bird::ApplicationState;
use flappy_bird::MenuMessage;

const NO_INPUT: InputSnapshot = InputSnapshot {
    space_pressed: false,
    up_pressed: false,
    touch_active: false,
};

const SPACE: InputSnapshot = InputSnapshot {
    space_pressed: true,
    up_pressed: false,
    touch_active: false,
};

#[test]
fn menu_walks_the_screen_flow() {
    let mut s = ApplicationState::LandingScreen;
    assert!(!menu_control(&mut s, false));
    assert_eq!(s, ApplicationState::LandingScreen);
    assert!(!menu_control(&mut s, true));
    assert_eq!(s, ApplicationState::InGame);
    assert!(!menu_control(&mut s, true));
    assert_eq!(s, ApplicationState::InGame);
    s = ApplicationState::GameEnding;
    assert!(!menu_control(&mut s, true));
    assert_eq!(s, ApplicationState::GameEnding);
    s = ApplicationState::GameEnd;
    assert!(!menu_control(&mut s, false));
    assert_eq!(s, ApplicationState::GameEnd);
    assert!(menu_control(&mut s, true));
    assert_eq!(s, ApplicationState::InGame);
}

#[test]
fn each_screen_has_its_message() {
    assert_eq!(menu_message(ApplicationState::LandingScreen), MenuMessage::StartPrompt);
    assert_eq!(menu_message(ApplicationState::InGame), MenuMessage::Blank);
    assert_eq!(menu_message(ApplicationState::GameEnding), MenuMessage::DeathNotice);
    assert_eq!(menu_message(ApplicationState::GameEnd), MenuMessage::RestartPrompt);
}

#[test]
fn fresh_game_waits_on_the_title_screen() {
    let mut g = Game::new();
    assert_eq!(g.app_state, ApplicationState::LandingScreen);
    assert_eq!(g.player.state, PlayerState::Idle);
    game_tick(&mut g, NO_INPUT, 16);
    assert_eq!(g.app_state, ApplicationState::LandingScreen);
    assert_eq!(g.player.state, PlayerState::Idle);
    assert_eq!(g.world.obstacles.len(), 0);
    assert_eq!(g.player_body.position, Vec2i { x: 0, y: 40_000 });
    // The animation timer has not reached its period yet.
    assert_eq!(g.atlas_index, 0);
}

#[test]
fn title_screen_animates_the_idle_fox() {
    let mut g = Game::new();
    game_tick(&mut g, NO_INPUT, 100);
    assert_eq!(g.atlas_index, 1);
    game_tick(&mut g, NO_INPUT, 100);
    assert_eq!(g.atlas_index, 2);
}

#[test]
fn space_starts_the_run_with_a_jump() {
    let mut g = Game::new();
    game_tick(&mut g, SPACE, 16);
    assert_eq!(g.app_state, ApplicationState::InGame);
    assert_eq!(g.player.state, PlayerState::Jumping);
    assert_eq!(g.player.attitude, PlayerAttitude::InAir);
    // One 16 ms step after the jump: the body rose and gravity pulls.
    assert_eq!(g.player_body.velocity.y, 426_000);
    assert_eq!(g.player_body.position.y, 47_008);
    assert_eq!(g.player_body.acceleration.y, -1_500_000);
    assert_eq!(g.world.scoreboard.score, 0);
}

#[test]
fn falling_without_input_just_runs() {
    let mut g = Game::new();
    game_tick(&mut g, SPACE, 16);
    game_tick(&mut g, NO_INPUT, 16);
    assert_eq!(g.player.state, PlayerState::Running);
    assert!(g.player_body.velocity.y < 426_000);
}

fn wall_at(x: i64, y: i64) -> Obstacle {
    Obstacle {
        body: RigidBody {
            position: Vec2i { x, y },
            velocity: Vec2i { x: -120_000, y: 0 },
            acceleration: Vec2i { x: 0, y: 0 },
        },
        size: Vec2i { x: 100_000, y: 100_000 },
    }
}

fn waypoint_at(id: u64, x: i64, y: i64) -> Waypoint {
    Waypoint {
        id,
        body: RigidBody {
            position: Vec2i { x, y },
            velocity: Vec2i { x: -120_000, y: 0 },
            acceleration: Vec2i { x: 0, y: 0 },
        },
        size: Vec2i { x: 40_000, y: 200_000 },
    }
}

#[test]
fn hitting_a_wall_ends_the_run_and_kills_the_player() {
    let mut g = Game::new();
    g.app_state = ApplicationState::InGame;
    g.player.state = PlayerState::Running;
    g.world.obstacles.push(wall_at(0, 40_000));
    game_tick(&mut g, NO_INPUT, 16);
    // The frame of the crash: the run ends, the player is in the wall.
    assert_eq!(g.app_state, ApplicationState::GameEnding);
    assert_eq!(g.player.attitude, PlayerAttitude::InWall);
    assert_eq!(g.player.state, PlayerState::Running);
    // The next frame the movement rules see the wall: dead and parked.
    game_tick(&mut g, NO_INPUT, 16);
    assert_eq!(g.player.state, PlayerState::Dead);
    assert_eq!(g.player_body.velocity, Vec2i { x: 0, y: 0 });
    assert_eq!(g.player_body.position.y, 0);
    assert_eq!(g.app_state, ApplicationState::GameEnding);
}

#[test]
fn ending_screen_clears_the_world_then_waits_for_a_restart() {
    let mut g = Game::new();
    g.app_state = ApplicationState::InGame;
    g.player.state = PlayerState::Running;
    g.world.obstacles.push(wall_at(0, 40_000));
    game_tick(&mut g, NO_INPUT, 16);
    assert_eq!(g.app_state, ApplicationState::GameEnding);
    assert_eq!(g.world.obstacles.len(), 1);
    // Each firing of the despawn timer removes one wall.
    game_tick(&mut g, NO_INPUT, 200);
    assert_eq!(g.world.obstacles.len(), 0);
    assert_eq!(g.app_state, ApplicationState::GameEnding);
    // A frame that begins with an empty world reaches the game-over screen.
    game_tick(&mut g, NO_INPUT, 10);
    assert_eq!(g.app_state, ApplicationState::GameEnd);
    // Space restarts: back in the game, airborne, score cleared.
    g.world.scoreboard.score = 9;
    game_tick(&mut g, SPACE, 16);
    assert_eq!(g.app_state, ApplicationState::InGame);
    assert_eq!(g.player.attitude, PlayerAttitude::InAir);
    assert_eq!(g.world.scoreboard.score, 0);
}

#[test]
fn passing_a_waypoint_scores_and_despawns_it() {
    let mut g = Game::new();
    g.app_state = ApplicationState::InGame;
    g.player.state = PlayerState::Running;
    g.world.waypoints.push(waypoint_at(7, 0, 40_000));
    game_tick(&mut g, NO_INPUT, 16);
    assert_eq!(g.app_state, ApplicationState::InGame);
    assert_eq!(g.world.scoreboard.score, 1);
    assert_eq!(g.world.waypoints.len(), 0);
    assert_eq!(g.player.attitude, PlayerAttitude::InAir);
}

#[test]
fn spawn_timer_brings_a_pair_into_a_running_game() {
    let mut g = Game::new();
    g.app_state = ApplicationState::InGame;
    g.player.state = PlayerState::Running;
    game_tick(&mut g, NO_INPUT, 2_000);
    assert_eq!(g.world.obstacles.len(), 2);
    assert_eq!(g.world.waypoints.len(), 1);
    assert_eq!(g.world.next_id, 1);
}
