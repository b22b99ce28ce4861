//! What the two buttons of the menu show and do.
//!
//! The menu holds a button that starts a new game and a button that leaves
//! the program. Each reacts to the pointer: it changes its text and its
//! colour, and when it is clicked it acts.

use vstd::prelude::*;

use crate::GameState;

verus! {

/// What the pointer does to a button.
#[derive(Debug, Clone, Copy, PartialEq, Eq, Structural)]
pub enum Interaction {
    Clicked,
    Hovered,
    /// The pointer is elsewhere.
    Idle,
}

/// The colours that a button takes.
#[derive(Debug, Clone, Copy, PartialEq, Eq, Structural)]
pub enum ButtonColor {
    Normal,
    Hovered,
    PressedGood,
    PressedDanger,
}

/// How a button looks.
#[derive(Debug, Clone, Copy, PartialEq, Eq)]
pub struct ButtonLook {
    pub text: &'static str,
    pub color: ButtonColor,
}

/// The text of the button that starts a new game.
pub open spec fn new_game_text(interaction: Interaction) -> Seq<char> {
    match interaction {
        Interaction::Clicked => "Starting"@,
        Interaction::Hovered => "Start"@,
        Interaction::Idle => "New Game"@,
    }
}

/// The text of the button that leaves the program.
pub open spec fn exit_text(interaction: Interaction) -> Seq<char> {
    match interaction {
        Interaction::Clicked => "Exiting"@,
        Interaction::Hovered => "Exit"@,
        Interaction::Idle => "Exit"@,
    }
}

/// The colour of a button whose click is shown in `pressed`.
pub open spec fn button_color(interaction: Interaction, pressed: ButtonColor) -> ButtonColor {
    match interaction {
        Interaction::Clicked => pressed,
        Interaction::Hovered => ButtonColor::Hovered,
        Interaction::Idle => ButtonColor::Normal,
    }
}

/// The button that starts a new game: how it looks under `interaction`,
/// and the mode it asks for, which is `Playing` when it is clicked.
pub fn button_new_game_system(
    interaction: Interaction,
) -> (reaction: (ButtonLook, Option<GameState>))
    ensures
        reaction.0.text@ == new_game_text(interaction),
        reaction.0.color == button_color(interaction, ButtonColor::PressedGood),
        reaction.1 == if interaction == Interaction::Clicked {
            Some(GameState::Playing)
        } else {
            None
        },
{
    match interaction {
        Interaction::Clicked => (
            ButtonLook { text: "Starting", color: ButtonColor::PressedGood },
            Some(GameState::Playing),
        ),
        Interaction::Hovered => (ButtonLook { text: "Start", color: ButtonColor::Hovered }, None),
        Interaction::Idle => (ButtonLook { text: "New Game", color: ButtonColor::Normal }, None),
    }
}

/// The button that leaves the program: how it looks under `interaction`,
/// and whether the program is to end, which it is when the button is
/// clicked.
pub fn button_exit_system(interaction: Interaction) -> (reaction: (ButtonLook, bool))
    ensures
        reaction.0.text@ == exit_text(interaction),
        reaction.0.color == button_color(interaction, ButtonColor::PressedDanger),
        reaction.1 == (interaction == Interaction::Clicked),
{
    match interaction {
        Interaction::Clicked => (
            ButtonLook { text: "Exiting", color: ButtonColor::PressedDanger },
            true,
        ),
        Interaction::Hovered => (ButtonLook { text: "Exit", color: ButtonColor::Hovered }, false),
        Interaction::Idle => (ButtonLook { text: "Exit", color: ButtonColor::Normal }, false),
    }
}

/// Whether the menu shows once the game has changed to `state`: in every
/// mode but `Playing`.
pub fn on_game_state_change(state: GameState) -> (visible: bool)
    ensures
        visible == (state != GameState::Playing),
{
    state.shows_menu()
}

} // verus!
