//! Gameplay core of a small side-scrolling arcade game.
//!
//! The crate holds the game's own data and rules: the screen-flow state
//! machine, a fixed-point rigid-body integrator, axis-aligned bounding-box
//! collision tests, the obstacle generator and the scoreboard.  Rendering,
//! windowing, input polling and audio belong to the engine shell around the
//! crate; every function here works on plain values and is verified.

use vstd::prelude::*;

pub mod game;
pub mod physics;
pub mod player;
pub mod timer;
pub mod world;

verus! {

/// The four screens the game moves through: the title screen, the run
/// itself, the short clearing animation after a crash, and the game-over
/// screen that waits for a restart.
#[derive(Clone, Copy, Debug, PartialEq, Eq, Structural)]
pub enum ApplicationState {
    LandingScreen,
    InGame,
    GameEnding,
    GameEnd,
}

/// Sent when the player asks for a new run from the game-over screen.
#[derive(Clone, Copy, Debug, PartialEq, Eq, Structural)]
pub struct RestartEvent;

/// The message shown by the menu on each screen.
#[derive(Clone, Copy, Debug, PartialEq, Eq, Structural)]
pub enum MenuMessage {
    StartPrompt,
    Blank,
    DeathNotice,
    RestartPrompt,
}

/// The message the menu shows while in `state`.
pub open spec fn spec_menu_message(state: ApplicationState) -> MenuMessage {
    match state {
        ApplicationState::LandingScreen => MenuMessage::StartPrompt,
        ApplicationState::InGame => MenuMessage::Blank,
        ApplicationState::GameEnding => MenuMessage::DeathNotice,
        ApplicationState::GameEnd => MenuMessage::RestartPrompt,
    }
}

/// Picks the menu text for the current screen.
pub fn menu_message(state: ApplicationState) -> (msg: MenuMessage)
    ensures
        msg == spec_menu_message(state),
{
    match state {
        ApplicationState::LandingScreen => MenuMessage::StartPrompt,
        ApplicationState::InGame => MenuMessage::Blank,
        ApplicationState::GameEnding => MenuMessage::DeathNotice,
        ApplicationState::GameEnd => MenuMessage::RestartPrompt,
    }
}

/// The screen the menu moves to when the confirm key is down or not: the
/// title screen and the game-over screen start a run, the others stand
/// still here.
pub open spec fn spec_menu_transition(state: ApplicationState, confirm_pressed: bool) -> ApplicationState {
    match state {
        ApplicationState::LandingScreen => if confirm_pressed {
            ApplicationState::InGame
        } else {
            ApplicationState::LandingScreen
        },
        ApplicationState::GameEnd => if confirm_pressed {
            ApplicationState::InGame
        } else {
            ApplicationState::GameEnd
        },
        s => s,
    }
}

/// Whether the menu fires a restart: exactly on the game-over screen with
/// the confirm key down.
pub open spec fn spec_menu_restart(state: ApplicationState, confirm_pressed: bool) -> bool {
    state is GameEnd && confirm_pressed
}

/// Advances the screen-flow state machine by one frame: the title screen
/// and the game-over screen react to the confirm key, the other screens
/// stand still here.  Returns whether a restart was requested, which
/// happens exactly on the game-over screen when the key is down.
pub fn menu_control(state: &mut ApplicationState, confirm_pressed: bool) -> (restart: bool)
    ensures
        *final(state) == spec_menu_transition(*old(state), confirm_pressed),
        restart == spec_menu_restart(*old(state), confirm_pressed),
{
    match *state {
        ApplicationState::LandingScreen => {
            if confirm_pressed {
                *state = ApplicationState::InGame;
            }
            false
        },
        ApplicationState::InGame => false,
        ApplicationState::GameEnding => false,
        ApplicationState::GameEnd => {
            if confirm_pressed {
                *state = ApplicationState::InGame;
                true
            } else {
                false
            }
        },
    }
}

} // verus!
