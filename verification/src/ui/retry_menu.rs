//! The retry menu's two decisions.

use vstd::prelude::*;
use crate::app::AppState;
use crate::ui::{pressed_leads_to, Interaction};

verus! {

/// Decides what the retry button does. `interaction` is the button's
/// interaction if it changed in this frame. A press asks for the playing
/// screen; anything else asks for nothing.
pub fn handle_retry_button(interaction: Option<Interaction>) -> (next_app_state: Option<AppState>)
    ensures
        next_app_state == pressed_leads_to(interaction, AppState::Playing),
{
    if let Some(Interaction::Pressed) = interaction {
        Some(AppState::Playing)
    } else {
        None
    }
}

/// Decides what the menu button does. `interaction` is the button's
/// interaction if it changed in this frame. A press asks for the main menu;
/// anything else asks for nothing.
pub fn handle_main_menu_button(interaction: Option<Interaction>) -> (next_app_state: Option<
    AppState,
>)
    ensures
        next_app_state == pressed_leads_to(interaction, AppState::MainMenu),
{
    if let Some(Interaction::Pressed) = interaction {
        Some(AppState::MainMenu)
    } else {
        None
    }
}

} // verus!
