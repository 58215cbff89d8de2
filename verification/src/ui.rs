//! What the player sees besides the field: the score and the buttons.

use vstd::prelude::*;
use crate::app::AppState;

pub mod main_menu;
pub mod retry_menu;
pub mod score;

verus! {

/// Colour of a button at rest, as `0xRRGGBB`.
pub const BUTTON_COLOR: u32 = 0xfbf236;

/// Colour of a button under the pointer, as `0xRRGGBB`.
pub const BUTTON_HOVER_COLOR: u32 = 0xe6dd33;

/// What the pointer does to a button.
#[derive(Clone, Copy, Debug, PartialEq, Eq, Structural)]
pub enum Interaction {
    /// The button is being pressed.
    Pressed,
    /// The pointer is over the button.
    Hovered,
    /// The pointer is elsewhere.
    Idle,
}

/// The colour of a button after [`handle_button_hover`].
pub open spec fn hover_color(interaction: Option<Interaction>, background: u32) -> u32 {
    match interaction {
        Some(Interaction::Hovered) => BUTTON_HOVER_COLOR,
        Some(Interaction::Idle) => BUTTON_COLOR,
        Some(Interaction::Pressed) => background,
        None => background,
    }
}

/// Picks the colour of a button whose interaction changed to `interaction`
/// (`None`: it did not change): the hover colour under the pointer, the
/// resting colour once the pointer has left, and the colour it has while it
/// is pressed or nothing changed.
pub fn handle_button_hover(interaction: Option<Interaction>, background: u32) -> (color: u32)
    ensures
        color == hover_color(interaction, background),
{
    match interaction {
        Some(Interaction::Hovered) => BUTTON_HOVER_COLOR,
        Some(Interaction::Idle) => BUTTON_COLOR,
        Some(Interaction::Pressed) => background,
        None => background,
    }
}

/// The screen a button leads to when its interaction changed to
/// `interaction`: `target` if it is pressed, none otherwise.
pub open spec fn pressed_leads_to(
    interaction: Option<Interaction>,
    target: AppState,
) -> Option<AppState> {
    if interaction == Some(Interaction::Pressed) {
        Some(target)
    } else {
        None
    }
}

/// Microseconds between two points: the time in which the pipes scroll by
/// one spacing.
pub const SCORE_TIMER_INTERVAL: u64 = 1_600_000;

} // verus!
