//! The controls needed to play the game, reduced to one action.

use vstd::prelude::*;
use crate::physics::Vec2i;

verus! {

/// What the player asks for this tick.  `Neutral` is the absence of input.
#[derive(Clone, Copy, Debug, PartialEq, Eq, Structural)]
pub enum Action {
    Neutral,
    Jump,
}

/// The per-tick input component attached to the player.
#[derive(Clone, Copy, Debug, PartialEq, Eq, Structural)]
pub struct Controller {
    pub direction: Vec2i,
    pub action: Action,
}

impl Controller {
    /// A controller with no input yet.
    pub fn new() -> (c: Controller)
        ensures
            c.direction.x == 0 && c.direction.y == 0,
            c.action is Neutral,
    {
        Controller { direction: Vec2i { x: 0, y: 0 }, action: Action::Neutral }
    }
}

/// The action the pressed keys stand for: any of the confirm key, the up
/// key or a touch means a jump.
pub open spec fn spec_action(space_pressed: bool, up_pressed: bool, touch_active: bool) -> Action {
    if space_pressed || up_pressed || touch_active {
        Action::Jump
    } else {
        Action::Neutral
    }
}

/// Translates this tick's polled keys and touches into the controller's
/// action; the stored direction is left as it is.
pub fn keyboard_inputs(
    space_pressed: bool,
    up_pressed: bool,
    touch_active: bool,
    controller: &mut Controller,
)
    ensures
        final(controller).action == spec_action(space_pressed, up_pressed, touch_active),
        final(controller).direction == old(controller).direction,
{
    if space_pressed || up_pressed || touch_active {
        controller.action = Action::Jump;
    } else {
        controller.action = Action::Neutral;
    }
}

} // verus!
