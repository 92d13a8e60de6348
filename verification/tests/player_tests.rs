use flappy_bird::physics::CollideEvent;
use flappy_bird::physics::CollideWith;
use flappy_bird::physics::RigidBody;
use flappy_bird::physics::Vec2i;
use flappy_bird::player::Player;
use flappy_bird::player::PlayerAttitude;
use flappy_bird::player::PlayerState;
use flappy_bird::player::controller::Action;
use flappy_bird::player::controller::Controller;
use flappy_bird::player::controller::keyboard_inputs;
use flappy_bird::player::movement::collide_event_handler;
use flappy_bird::player::movement::player_movement;
use flappy_bird::player::restart_event_handler;
use flappy_bird::ApplicationState;

#[test]
fn any_pressed_key_or_touch_means_jump() {
    let mut c = Controller::new();
    keyboard_inputs(true, false, false, &mut c);
    assert_eq!(c.action, Action::Jump);
    keyboard_inputs(false, true, false, &mut c);
    assert_eq!(c.action, Action::Jump);
    keyboard_inputs(false, false, true, &mut c);
    assert_eq!(c.action, Action::Jump);
    keyboard_inputs(false, false, false, &mut c);
    assert_eq!(c.action, Action::Neutral);
}

fn airborne() -> (RigidBody, Player) {
    (
        RigidBody {
            position: Vec2i { x: 0, y: 40_000 },
            velocity: Vec2i { x: 0, y: -5_000 },
            acceleration: Vec2i { x: 0, y: 0 },
        },
        Player { state: PlayerState::Idle, attitude: PlayerAttitude::InAir },
    )
}

#[test]
fn airborne_player_runs_under_gravity() {
    let (mut body, mut player) = airborne();
    let controller = Controller { direction: Vec2i { x: 0, y: 0 }, action: Action::Neutral };
    player_movement(&mut body, &controller, &mut player);
    assert_eq!(player.state, PlayerState::Running);
    assert_eq!(body.velocity.y, -5_000);
    assert_eq!(body.acceleration.y, -1_500_000);
}

#[test]
fn jump_sets_the_upward_velocity() {
    let (mut body, mut player) = airborne();
    let controller = Controller { direction: Vec2i { x: 0, y: 0 }, action: Action::Jump };
    player_movement(&mut body, &controller, &mut player);
    assert_eq!(player.state, PlayerState::Jumping);
    assert_eq!(body.velocity.y, 450_000);
    assert_eq!(body.acceleration.y, -1_500_000);
}

#[test]
fn walled_player_dies_and_is_parked() {
    let (mut body, mut player) = airborne();
    player.attitude = PlayerAttitude::InWall;
    let controller = Controller { direction: Vec2i { x: 0, y: 0 }, action: Action::Jump };
    player_movement(&mut body, &controller, &mut player);
    assert_eq!(player.state, PlayerState::Dead);
    assert_eq!(body.velocity, Vec2i { x: 0, y: 0 });
    assert_eq!(body.acceleration, Vec2i { x: 0, y: 0 });
    assert_eq!(body.position, Vec2i { x: 0, y: 0 });
}

#[test]
fn obstacle_hit_walls_the_player_and_ends_the_run() {
    let mut player = Player { state: PlayerState::Running, attitude: PlayerAttitude::InAir };
    let mut state = ApplicationState::InGame;
    let events = vec![
        CollideEvent { other: CollideWith::Waypoint(3) },
        CollideEvent { other: CollideWith::Obstacle },
    ];
    collide_event_handler(&events, &mut player, &mut state);
    assert_eq!(player.attitude, PlayerAttitude::InWall);
    assert_eq!(player.state, PlayerState::Running);
    assert_eq!(state, ApplicationState::GameEnding);
}

#[test]
fn waypoint_passes_alone_do_not_wall_the_player() {
    let mut player = Player { state: PlayerState::Running, attitude: PlayerAttitude::InAir };
    let mut state = ApplicationState::InGame;
    let events = vec![CollideEvent { other: CollideWith::Waypoint(3) }];
    collide_event_handler(&events, &mut player, &mut state);
    assert_eq!(player.attitude, PlayerAttitude::InAir);
    assert_eq!(state, ApplicationState::InGame);
}

#[test]
fn restart_puts_the_player_back_in_the_air() {
    let mut player = Player { state: PlayerState::Dead, attitude: PlayerAttitude::InWall };
    restart_event_handler(false, &mut player);
    assert_eq!(player.attitude, PlayerAttitude::InWall);
    restart_event_handler(true, &mut player);
    assert_eq!(player.attitude, PlayerAttitude::InAir);
    assert_eq!(player.state, PlayerState::Dead);
}
