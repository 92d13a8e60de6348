use flappy_bird::player::PlayerState;
use flappy_bird::player::sprites::AnimationIndices;
use flappy_bird::player::sprites::AnimationTimer;
use flappy_bird::player::sprites::AnimationUpDown;
use flappy_bird::player::sprites::SpriteOrientation;
use flappy_bird::player::sprites::animate_sprite;
use flappy_bird::timer::RepeatingTimer;

struct Rig {
    indices: AnimationIndices,
    timer: AnimationTimer,
    index: usize,
    up: AnimationUpDown,
    orientation: SpriteOrientation,
}

fn rig(index: usize, up: bool) -> Rig {
    Rig {
        indices: AnimationIndices { first: 0, last: 5 },
        timer: AnimationTimer(RepeatingTimer::new(100)),
        index,
        up: AnimationUpDown(up),
        orientation: SpriteOrientation::Upright,
    }
}

fn step(r: &mut Rig, state: PlayerState, delta_ms: u32) {
    animate_sprite(
        state,
        &r.indices,
        delta_ms,
        &mut r.timer,
        &mut r.index,
        &mut r.up,
        &mut r.orientation,
    );
}

#[test]
fn idle_swings_up_through_its_frames() {
    let mut r = rig(0, true);
    step(&mut r, PlayerState::Idle, 100);
    assert_eq!(r.index, 1);
    assert!(r.up.0);
}

#[test]
fn idle_turns_around_at_the_last_frame() {
    let mut r = rig(5, true);
    step(&mut r, PlayerState::Idle, 100);
    assert_eq!(r.index, 5);
    assert!(!r.up.0);
    step(&mut r, PlayerState::Idle, 100);
    assert_eq!(r.index, 4);
}

#[test]
fn idle_turns_around_at_the_first_frame() {
    let mut r = rig(0, false);
    step(&mut r, PlayerState::Idle, 100);
    assert_eq!(r.index, 0);
    assert!(r.up.0);
}

#[test]
fn idle_waits_for_the_timer() {
    let mut r = rig(2, true);
    step(&mut r, PlayerState::Idle, 40);
    assert_eq!(r.index, 2);
    assert!(r.up.0);
}

#[test]
fn running_enters_the_run_row_from_below() {
    let mut r = rig(3, true);
    step(&mut r, PlayerState::Running, 100);
    assert_eq!(r.index, 6);
}

#[test]
fn running_cycles_and_wraps_to_idle_start() {
    let mut r = rig(6, true);
    step(&mut r, PlayerState::Running, 100);
    assert_eq!(r.index, 7);
    let mut r = rig(11, true);
    step(&mut r, PlayerState::Running, 100);
    assert_eq!(r.index, 0);
}

#[test]
fn jumping_pins_the_jump_frame() {
    let mut r = rig(2, true);
    step(&mut r, PlayerState::Jumping, 10);
    assert_eq!(r.index, 9);
    assert!(matches!(r.orientation, SpriteOrientation::Upright));
}

#[test]
fn dead_pins_its_frame_and_flips_the_sprite() {
    let mut r = rig(2, true);
    step(&mut r, PlayerState::Dead, 10);
    assert_eq!(r.index, 6);
    assert!(matches!(r.orientation, SpriteOrientation::UpsideDown));
}
