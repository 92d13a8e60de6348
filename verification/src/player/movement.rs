//! Per-tick movement rules for the player.

use vstd::prelude::*;
use crate::ApplicationState;
use crate::physics::CollideEvent;
use crate::physics::RigidBody;
use crate::physics::Vec2i;
use crate::player::Player;
use crate::player::PlayerAttitude;
use crate::player::PlayerState;
use crate::player::controller::Action;
use crate::player::controller::Controller;

verus! {

/// Upward velocity a jump gives the player, in milli-pixels per second.
pub const JUMP_VELOCITY: i64 = 450_000;

/// Downward pull while airborne, in milli-pixels per second squared.
pub const GRAVITY_ACCEL: i64 = -1_500_000;

/// The player and body after one movement tick.  In the air the player
/// runs, or jumps when asked to, and gravity applies; in a wall the player
/// is dead and the body is parked at the vertical center with no motion.
pub open spec fn spec_player_movement(p: Player, a: Action, b: RigidBody) -> (Player, RigidBody) {
    match p.attitude {
        PlayerAttitude::InAir => (
            Player {
                state: if a is Jump {
                    PlayerState::Jumping
                } else {
                    PlayerState::Running
                },
                attitude: p.attitude,
            },
            RigidBody {
                position: b.position,
                velocity: Vec2i {
                    x: b.velocity.x,
                    y: if a is Jump {
                        JUMP_VELOCITY
                    } else {
                        b.velocity.y
                    },
                },
                acceleration: Vec2i { x: b.acceleration.x, y: GRAVITY_ACCEL },
            },
        ),
        PlayerAttitude::InWall => (
            Player { state: PlayerState::Dead, attitude: p.attitude },
            RigidBody {
                position: Vec2i { x: b.position.x, y: 0 },
                velocity: Vec2i { x: 0, y: 0 },
                acceleration: Vec2i { x: 0, y: 0 },
            },
        ),
    }
}

/// Applies one movement tick to the player and its body.
pub fn player_movement(body: &mut RigidBody, controller: &Controller, player: &mut Player)
    requires
        old(body).wf(),
    ensures
        (*final(player), *final(body)) == spec_player_movement(
            *old(player),
            controller.action,
            *old(body),
        ),
        final(body).wf(),
{
    match player.attitude {
        PlayerAttitude::InAir => {
            player.state = PlayerState::Running;
            if controller.action == Action::Jump {
                player.state = PlayerState::Jumping;
                body.velocity = Vec2i { x: body.velocity.x, y: JUMP_VELOCITY };
            }
            body.acceleration = Vec2i { x: body.acceleration.x, y: GRAVITY_ACCEL };
        },
        PlayerAttitude::InWall => {
            player.state = PlayerState::Dead;
            body.velocity = Vec2i { x: 0, y: 0 };
            body.acceleration = Vec2i { x: 0, y: 0 };
            body.position = Vec2i { x: body.position.x, y: 0 };
        },
    }
}

/// Whether any event of the tick is a collision with a solid obstacle.
pub open spec fn spec_has_obstacle_hit(events: Seq<CollideEvent>) -> bool
    decreases events.len(),
{
    if events.len() == 0 {
        false
    } else {
        spec_has_obstacle_hit(events.drop_last()) || events.last().other is Obstacle
    }
}

/// Reads the tick's collision events: touching any solid obstacle puts the
/// player in the wall and moves the game to its ending screen.
pub fn collide_event_handler(
    events: &Vec<CollideEvent>,
    player: &mut Player,
    state: &mut ApplicationState,
)
    ensures
        final(player).state == old(player).state,
        final(player).attitude == if spec_has_obstacle_hit(events@) {
            PlayerAttitude::InWall
        } else {
            old(player).attitude
        },
        *final(state) == if spec_has_obstacle_hit(events@) {
            ApplicationState::GameEnding
        } else {
            *old(state)
        },
{
    let mut idx: usize = 0;
    while idx < events.len()
        invariant
            idx <= events@.len(),
            player.state == old(player).state,
            player.attitude == if spec_has_obstacle_hit(events@.take(idx as int)) {
                PlayerAttitude::InWall
            } else {
                old(player).attitude
            },
            *state == if spec_has_obstacle_hit(events@.take(idx as int)) {
                ApplicationState::GameEnding
            } else {
                *old(state)
            },
        decreases events@.len() - idx,
    {
        proof {
            assert(events@.take(idx + 1).drop_last() =~= events@.take(idx as int));
            assert(events@.take(idx + 1).last() == events@[idx as int]);
        }
        match events[idx].other {
            crate::physics::CollideWith::Obstacle => {
                player.attitude = PlayerAttitude::InWall;
                *state = ApplicationState::GameEnding;
            },
            crate::physics::CollideWith::Waypoint(_) => {},
        }
        idx = idx + 1;
    }
    proof {
        assert(events@.take(events@.len() as int) =~= events@);
    }
}

} // verus!
