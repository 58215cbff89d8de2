//! The main menu's one decision.

use vstd::prelude::*;
use crate::app::AppState;
use crate::ui::{pressed_leads_to, Interaction};

verus! {

/// Decides what the play button does. `interaction` is the button's
/// interaction if it changed in this frame. A press asks for the playing
/// screen; anything else asks for nothing.
pub fn handle_play_button(interaction: Option<Interaction>) -> (next_app_state: Option<AppState>)
    ensures
        next_app_state == pressed_leads_to(interaction, AppState::Playing),
{
    if let Some(Interaction::Pressed) = interaction {
        Some(AppState::Playing)
    } else {
        None
    }
}

} // verus!
