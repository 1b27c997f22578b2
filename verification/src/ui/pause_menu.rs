//! The pause menu's buttons.
use vstd::prelude::*;
use super::main_game_menu::GameState;

verus! {

/// A button of the pause menu.
#[derive(Clone, Copy, PartialEq, Eq, Structural, Debug)]
pub enum PauseButton {
    Resume,
    MainMenu,
}

/// What pressing a pause-menu button does: the screen to go to, and
/// whether the game world is cleared first.
#[derive(Clone, Copy, PartialEq, Eq, Structural, Debug)]
pub struct PauseAction {
    pub next_state: GameState,
    pub clear_world: bool,
}

/// Resume goes back into the game as it was; the main menu button clears
/// the game world and goes to the main menu.
pub fn handle_pause_menu_input(button: PauseButton) -> (action: PauseAction)
    ensures
        action == (match button {
            PauseButton::Resume => PauseAction { next_state: GameState::InGame, clear_world: false },
            PauseButton::MainMenu => PauseAction { next_state: GameState::MainMenu, clear_world: true },
        }),
{
    match button {
        PauseButton::Resume => PauseAction { next_state: GameState::InGame, clear_world: false },
        PauseButton::MainMenu => PauseAction { next_state: GameState::MainMenu, clear_world: true },
    }
}

} // verus!
