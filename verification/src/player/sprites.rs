//! Frame selection for the player's sprite sheet.
//!
//! The sheet holds two rows of six frames: an idle animation that swings
//! back and forth through its frames, and a run animation that cycles.  The
//! jump and death poses are single fixed frames; death also turns the
//! sprite upside down.

use vstd::prelude::*;
use crate::player::PlayerState;
use crate::timer::RepeatingTimer;
use crate::timer::TIMER_MAX_MS;

verus! {

/// First frame of the idle animation.
pub const SPRITE_IDLE_FIRST: usize = 0;

/// Last frame of the idle animation.
pub const SPRITE_IDLE_LAST: usize = 5;

/// First frame of the run animation.
pub const SPRITE_RUN_FIRST: usize = 6;

/// Last frame of the run animation.
pub const SPRITE_RUN_LAST: usize = 11;

/// The fixed frame shown while jumping.
pub const SPRITE_JUMP_FRAME: usize = 9;

/// The fixed frame shown after a crash.
pub const SPRITE_DEAD_FRAME: usize = 6;

/// The frame range an animated entity walks through.
#[derive(Clone, Copy, Debug, PartialEq, Eq, Structural)]
pub struct AnimationIndices {
    pub first: usize,
    pub last: usize,
}

/// The repeating timer that paces an animation.
#[derive(Clone, Copy, Debug, PartialEq, Eq, Structural)]
pub struct AnimationTimer(pub RepeatingTimer);

/// True while the idle animation walks from low to high frame numbers,
/// false on the way back down.
#[derive(Clone, Copy, Debug, PartialEq, Eq, Structural)]
pub struct AnimationUpDown(pub bool);

/// Which way up the sprite is drawn; death flips it.
#[derive(Clone, Copy, Debug, PartialEq, Eq, Structural)]
pub enum SpriteOrientation {
    Upright,
    UpsideDown,
}

/// Frame, swing direction and orientation after one animation step.
/// `fired` says whether the animation timer reached its period this frame.
pub open spec fn spec_animate(
    state: PlayerState,
    indices: AnimationIndices,
    idx: int,
    up: bool,
    orientation: SpriteOrientation,
    fired: bool,
) -> (int, bool, SpriteOrientation) {
    match state {
        PlayerState::Idle => {
            if fired {
                if up {
                    if idx < indices.last {
                        (idx + 1, up, SpriteOrientation::Upright)
                    } else {
                        (idx, false, SpriteOrientation::Upright)
                    }
                } else {
                    if idx > indices.first {
                        (idx - 1, up, SpriteOrientation::Upright)
                    } else {
                        (idx, true, SpriteOrientation::Upright)
                    }
                }
            } else {
                (idx, up, SpriteOrientation::Upright)
            }
        },
        PlayerState::Running => {
            if fired {
                let next = if idx < SPRITE_RUN_FIRST {
                    SPRITE_RUN_FIRST as int
                } else if idx >= SPRITE_RUN_LAST {
                    SPRITE_IDLE_FIRST as int
                } else {
                    idx + 1
                };
                (next, up, SpriteOrientation::Upright)
            } else {
                (idx, up, SpriteOrientation::Upright)
            }
        },
        PlayerState::Jumping => (SPRITE_JUMP_FRAME as int, up, orientation),
        PlayerState::Dead => (SPRITE_DEAD_FRAME as int, up, SpriteOrientation::UpsideDown),
    }
}

/// Advances the animation timer and picks the sprite frame for this frame's
/// player state, swinging the idle animation, cycling the run animation and
/// pinning the jump and death poses.
pub fn animate_sprite(
    state: PlayerState,
    indices: &AnimationIndices,
    delta_ms: u32,
    timer: &mut AnimationTimer,
    atlas_index: &mut usize,
    up_down: &mut AnimationUpDown,
    orientation: &mut SpriteOrientation,
)
    requires
        old(timer).0.wf(),
        delta_ms <= TIMER_MAX_MS,
    ensures
        final(timer).0 == old(timer).0.spec_tick(delta_ms as int),
        final(timer).0.wf(),
        (*final(atlas_index) as int, final(up_down).0, *final(orientation)) == spec_animate(
            state,
            *indices,
            *old(atlas_index) as int,
            old(up_down).0,
            *old(orientation),
            old(timer).0.spec_fired(delta_ms as int),
        ),
{
    let fired = timer.0.tick(delta_ms);
    match state {
        PlayerState::Idle => {
            *orientation = SpriteOrientation::Upright;
            if fired {
                if up_down.0 {
                    if *atlas_index < indices.last {
                        *atlas_index = *atlas_index + 1;
                    } else {
                        up_down.0 = false;
                    }
                } else {
                    if *atlas_index > indices.first {
                        *atlas_index = *atlas_index - 1;
                    } else {
                        up_down.0 = true;
                    }
                }
            }
        },
        PlayerState::Running => {
            *orientation = SpriteOrientation::Upright;
            if fired {
                *atlas_index = if *atlas_index < SPRITE_RUN_FIRST {
                    SPRITE_RUN_FIRST
                } else if *atlas_index >= SPRITE_RUN_LAST {
                    SPRITE_IDLE_FIRST
                } else {
                    *atlas_index + 1
                };
            }
        },
        PlayerState::Jumping => {
            *atlas_index = SPRITE_JUMP_FRAME;
        },
        PlayerState::Dead => {
            *atlas_index = SPRITE_DEAD_FRAME;
            *orientation = SpriteOrientation::UpsideDown;
        },
    }
}

} // verus!
