//! The application state machine: top-level states, level sub-states,
//! and the transitions the game takes between them.

use vstd::prelude::*;

verus! {

/// Top-level state of the application.
#[derive(Clone, Copy, PartialEq, Eq, Structural, Hash, Debug)]
pub enum AppState {
    Splash,
    MainMenu,
    Running,
    Quitting,
}

/// Which level is being played while the application is `Running`.
#[derive(Clone, Copy, PartialEq, Eq, Structural, Hash, Debug)]
pub enum LevelState {
    Level01,
    Level02,
    Level03,
    Level04,
    Level05,
}

/// Where reaching a level's exit leads: either straight into another
/// level, or back to the main menu, which ends the run.
#[derive(Clone, Copy, PartialEq, Eq, Structural, Debug)]
pub enum LevelExit {
    NextLevel(LevelState),
    EndRun,
}

/// Exit target of each level: the first two levels chain into their
/// successor, the later ones return to the main menu.
pub open spec fn spec_level_exit_target(level: LevelState) -> LevelExit {
    match level {
        LevelState::Level01 => LevelExit::NextLevel(LevelState::Level02),
        LevelState::Level02 => LevelExit::NextLevel(LevelState::Level03),
        LevelState::Level03 => LevelExit::EndRun,
        LevelState::Level04 => LevelExit::EndRun,
        LevelState::Level05 => LevelExit::EndRun,
    }
}

/// State the game moves to when the player reaches the exit of `level`.
pub fn level_exit_target(level: LevelState) -> (r: LevelExit)
    ensures
        r == spec_level_exit_target(level),
{
    match level {
        LevelState::Level01 => LevelExit::NextLevel(LevelState::Level02),
        LevelState::Level02 => LevelExit::NextLevel(LevelState::Level03),
        LevelState::Level03 => LevelExit::EndRun,
        LevelState::Level04 => LevelExit::EndRun,
        LevelState::Level05 => LevelExit::EndRun,
    }
}

/// What the pointer is doing to a menu button this frame.
#[derive(Clone, Copy, PartialEq, Eq, Structural, Debug)]
pub enum ButtonInteraction {
    Pressed,
    Hovered,
    Idle,
}

/// Menu decision: a pressed button switches the application to the
/// button's target state; hovering or resting changes nothing.
pub fn menu_button_target(interaction: ButtonInteraction, target: AppState) -> (r: Option<
    AppState,
>)
    ensures
        r == (if interaction is Pressed {
            Some(target)
        } else {
            None::<AppState>
        }),
{
    match interaction {
        ButtonInteraction::Pressed => Some(target),
        _ => None,
    }
}

} // verus!
