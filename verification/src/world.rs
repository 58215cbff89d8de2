//! Everything that exists while the game runs, in one place.

use vstd::prelude::*;
use crate::app::AppState;
use crate::gameplay::pipes::Pipe;
use crate::gameplay::player::{FallDelayTimer, Player, PlayerState, ResetDelayTimer};
use crate::ui::score::{Score, ScoreDisplay, ScoreRule, ScoreTimer};
use crate::window::WindowInfo;

verus! {

/// The state of the game. A part that does not exist at the moment is `None`
/// (or, for the pipes, an empty list); every operation passes over the parts
/// that are missing.
#[derive(Clone, Debug, PartialEq, Eq)]
pub struct World {
    /// The visible field.
    pub window: WindowInfo,
    /// The screen the application shows.
    pub app_state: AppState,
    /// The phase of the run.
    pub player_state: PlayerState,
    /// How points are given.
    pub score_rule: ScoreRule,
    /// The points of the current run.
    pub score: Score,
    /// The score as it is shown, while it is shown.
    pub score_display: Option<ScoreDisplay>,
    /// The player, while a run is set up.
    pub player: Option<Player>,
    /// The pipes, two for each pair.
    pub pipes: Vec<Pipe>,
    /// Paces the score; exists while the player is flapping.
    pub score_timer: Option<ScoreTimer>,
    /// Counts down from a collision to the start of the fall.
    pub fall_delay_timer: Option<FallDelayTimer>,
    /// Counts down from the start of the fall to the end of the run.
    pub reset_delay_timer: Option<ResetDelayTimer>,
}

/// A [`World`] as a mathematical value: the same parts, with the pipes as a
/// sequence.
pub struct WorldView {
    pub window: WindowInfo,
    pub app_state: AppState,
    pub player_state: PlayerState,
    pub score_rule: ScoreRule,
    pub score: Score,
    pub score_display: Option<ScoreDisplay>,
    pub player: Option<Player>,
    pub pipes: Seq<Pipe>,
    pub score_timer: Option<ScoreTimer>,
    pub fall_delay_timer: Option<FallDelayTimer>,
    pub reset_delay_timer: Option<ResetDelayTimer>,
}

impl View for World {
    type V = WorldView;

    open spec fn view(&self) -> WorldView {
        WorldView {
            window: self.window,
            app_state: self.app_state,
            player_state: self.player_state,
            score_rule: self.score_rule,
            score: self.score,
            score_display: self.score_display,
            player: self.player,
            pipes: self.pipes@,
            score_timer: self.score_timer,
            fall_delay_timer: self.fall_delay_timer,
            reset_delay_timer: self.reset_delay_timer,
        }
    }
}

/// What a tick asks of the surroundings: the sounds to play and, at the end
/// of a run, the screen to show next.
#[derive(Clone, Copy, Debug, PartialEq, Eq, Structural)]
pub struct TickEvents {
    /// The player flapped.
    pub flap_sound: bool,
    /// The player hit a pipe or an edge of the field.
    pub smack_sound: bool,
    /// The player started to fall.
    pub fall_sound: bool,
    /// The score went up.
    pub score_sound: bool,
    /// The screen to change to, if the run has just ended.
    pub next_app_state: Option<AppState>,
}

impl TickEvents {
    /// Nothing happened.
    pub open spec fn quiet() -> TickEvents {
        TickEvents {
            flap_sound: false,
            smack_sound: false,
            fall_sound: false,
            score_sound: false,
            next_app_state: None,
        }
    }

    /// Events that ask for nothing.
    pub fn none() -> (events: TickEvents)
        ensures
            events == TickEvents::quiet(),
    {
        TickEvents {
            flap_sound: false,
            smack_sound: false,
            fall_sound: false,
            score_sound: false,
            next_app_state: None,
        }
    }
}

} // verus!
