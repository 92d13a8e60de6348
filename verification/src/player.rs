//! The player entity: its state machine and the restart rule.

use vstd::prelude::*;

pub mod controller;
pub mod movement;
pub mod sprites;

verus! {

/// What the player is doing, which drives the sprite animation and the
/// movement rules.
#[derive(Clone, Copy, Debug, PartialEq, Eq, Structural)]
pub enum PlayerState {
    Idle,
    Running,
    Jumping,
    Dead,
}

/// Where the player is: still in the air, or crashed into a wall.
#[derive(Clone, Copy, Debug, PartialEq, Eq, Structural)]
pub enum PlayerAttitude {
    InAir,
    InWall,
}

/// The player's gameplay component.
#[derive(Clone, Copy, Debug, PartialEq, Eq, Structural)]
pub struct Player {
    pub state: PlayerState,
    pub attitude: PlayerAttitude,
}

impl Player {
    /// A freshly spawned player: idle, hanging in the air.
    pub fn new() -> (p: Player)
        ensures
            p.state is Idle,
            p.attitude is InAir,
    {
        Player { state: PlayerState::Idle, attitude: PlayerAttitude::InAir }
    }
}

/// Puts the player back in the air when a new run was requested, and
/// otherwise leaves it alone.
pub fn restart_event_handler(restart_requested: bool, player: &mut Player)
    ensures
        final(player).attitude == if restart_requested {
            PlayerAttitude::InAir
        } else {
            old(player).attitude
        },
        final(player).state == old(player).state,
{
    if restart_requested {
        player.attitude = PlayerAttitude::InAir;
    }
}

} // verus!
