//! The application around a run: which screen is up, and what is set up and
//! torn down when the screen changes.

use vstd::prelude::*;
use crate::gameplay::course::{
    after_ticks, lemma_pipe_count_is_kept, lemma_pipes_stay_in_reach, lemma_timers_fit_phase,
    pipes_are_in_reach, scrolls_within, TickInput,
};
use crate::gameplay::pipes::{
    are_pipe_offsets, despawn_pipes, lemma_spawned_pipe_is_in_reach, pipe_is_in_reach,
    spawn_pipes, spawn_pipes_random, spawned_pipes,
};
use crate::gameplay::player::{despawn_player, fresh_player, spawn_player, PlayerState};
use crate::gameplay::{PIPE_AMOUNT, PIPE_CYCLE, PIPE_HALF_WIDTH_SCALED};
use crate::ui::score::{
    despawn_score_display, spawn_score_display, Score, ScoreDisplay, ScoreRule,
};
use crate::window::WindowInfo;
use crate::world::{World, WorldView};

verus! {

/// The screens of the application.
#[derive(Clone, Copy, Debug, PartialEq, Eq, Hash, Structural)]
pub enum AppState {
    /// Nothing is shown yet.
    Loading,
    /// The title and the play button.
    MainMenu,
    /// The field with player and pipes.
    Playing,
    /// The field after a run, with the buttons to retry or leave.
    RetryMenu,
}

/// The application: it sets up the world and carries it from screen to
/// screen.
#[derive(Clone, Copy, Debug, PartialEq, Eq, Structural)]
pub struct AppPlugin;

/// Whether the change from `exited` to `entered` sets up a new run.
pub open spec fn starts_run(exited: AppState, entered: AppState) -> bool {
    entered == AppState::Playing && (exited == AppState::MainMenu || exited
        == AppState::RetryMenu)
}

/// Whether the change from `exited` to `entered` clears the field.
pub open spec fn clears_run(exited: AppState, entered: AppState) -> bool {
    exited == AppState::RetryMenu && entered == AppState::MainMenu
}

/// The world as the application starts: nothing is loaded, nothing is set
/// up, the field is that of the window the game opens with, and points are
/// given for the time flown.
pub open spec fn initial_world() -> WorldView {
    WorldView {
        window: WindowInfo {
            half_width: crate::window::WINDOW_HALF_WIDTH_PX,
            half_height: crate::window::WINDOW_HALF_HEIGHT_PX,
        },
        app_state: AppState::Loading,
        player_state: PlayerState::WaitingToStart,
        score_rule: ScoreRule::ByTime,
        score: Score(0),
        score_display: None,
        player: None,
        pipes: Seq::empty(),
        score_timer: None,
        fall_delay_timer: None,
        reset_delay_timer: None,
    }
}

/// The world at the start of a run: the score is zero and shown, the player
/// rests at the origin and waits for the first flap, and the pipes stand
/// right of the field with the middles of their gaps at `y_offsets`. Timers
/// are left as they are.
pub open spec fn with_new_run(w: WorldView, y_offsets: Seq<i64>) -> WorldView {
    WorldView {
        score: Score(0),
        score_display: Some(ScoreDisplay { value: 0 }),
        player: Some(fresh_player()),
        pipes: spawned_pipes(w.window, y_offsets),
        player_state: PlayerState::WaitingToStart,
        ..w
    }
}

/// The world with the field cleared: no display, no player, no pipes.
pub open spec fn without_run(w: WorldView) -> WorldView {
    WorldView { score_display: None, player: None, pipes: Seq::empty(), ..w }
}

/// The world after the screen has changed to `entered`. Entering the
/// playing screen from a menu sets up a new run, whatever was left of the
/// last one; going from the retry menu to the main menu clears the field;
/// every other change only changes the screen.
pub open spec fn after_transition(
    w: WorldView,
    entered: AppState,
    y_offsets: Seq<i64>,
) -> WorldView {
    let changed = WorldView { app_state: entered, ..w };
    if starts_run(w.app_state, entered) {
        with_new_run(changed, y_offsets)
    } else if clears_run(w.app_state, entered) {
        without_run(changed)
    } else {
        changed
    }
}

/// A new run has all its pipes: entering the playing screen from a menu
/// leaves two pipes for each pair, a player at rest and a score of zero,
/// whatever the world held before.
pub proof fn lemma_new_run_is_complete(w: WorldView, entered: AppState, y_offsets: Seq<i64>)
    requires
        starts_run(w.app_state, entered),
    ensures
        after_transition(w, entered, y_offsets).pipes.len() == 2 * PIPE_AMOUNT,
        after_transition(w, entered, y_offsets).player == Some(fresh_player()),
        after_transition(w, entered, y_offsets).score == Score(0),
        after_transition(w, entered, y_offsets).player_state == PlayerState::WaitingToStart,
        after_transition(w, entered, y_offsets).app_state == AppState::Playing,
{
}

/// A run keeps what it was set up with. After a new run has been set up and
/// any ticks have passed, the world still has two pipes for each pair, and
/// its timers fit the phase of the run.
pub proof fn lemma_run_keeps_its_pipes(
    w: WorldView,
    entered: AppState,
    y_offsets: Seq<i64>,
    inputs: Seq<TickInput>,
)
    requires
        starts_run(w.app_state, entered),
    ensures
        after_ticks(after_transition(w, entered, y_offsets), inputs).pipes.len() == 2
            * PIPE_AMOUNT,
        after_ticks(after_transition(w, entered, y_offsets), inputs).timers_fit_phase(),
{
    let run = after_transition(w, entered, y_offsets);
    lemma_pipe_count_is_kept(run, inputs);
    lemma_timers_fit_phase(run, inputs);
}

/// In a run the pipes never fall behind. If no tick scrolls further than
/// `reach`, and a cycle is at least as long as the field is wide, half a
/// pipe and twice the reach together, then after a new run has been set up
/// and any ticks have passed, every pipe is in reach: each pipe that leaves
/// the field comes back at or beyond its right edge in the tick after.
pub proof fn lemma_run_keeps_pipes_ahead(
    w: WorldView,
    entered: AppState,
    y_offsets: Seq<i64>,
    inputs: Seq<TickInput>,
    reach: int,
)
    requires
        starts_run(w.app_state, entered),
        0 <= reach,
        scrolls_within(inputs, reach),
        PIPE_CYCLE >= (w.window.max_x() - w.window.min_x()) + PIPE_HALF_WIDTH_SCALED + 2 * reach,
    ensures
        pipes_are_in_reach(after_ticks(after_transition(w, entered, y_offsets), inputs), reach),
{
    let run = after_transition(w, entered, y_offsets);
    assert forall|k: int| 0 <= k < run.pipes.len() implies pipe_is_in_reach(
        #[trigger] run.pipes[k],
        run.window,
        reach,
    ) by {
        lemma_spawned_pipe_is_in_reach(w.window, y_offsets, k, reach);
    }
    lemma_pipes_stay_in_reach(run, inputs, reach);
}

/// Replaces the field of the world by one of the given half width and half
/// height.
pub fn insert_window_info(world: &mut World, half_width: u32, half_height: u32)
    ensures
        final(world)@ == (WorldView {
            window: WindowInfo { half_width, half_height },
            ..old(world)@
        }),
{
    world.window = WindowInfo { half_width, half_height };
}

impl AppPlugin {
    /// Builds the world in which the application starts.
    pub fn build(&self) -> (world: World)
        ensures
            world@ == initial_world(),
    {
        World {
            window: WindowInfo::new(),
            app_state: AppState::Loading,
            player_state: PlayerState::WaitingToStart,
            score_rule: ScoreRule::ByTime,
            score: Score(0),
            score_display: None,
            player: None,
            pipes: Vec::new(),
            score_timer: None,
            fall_delay_timer: None,
            reset_delay_timer: None,
        }
    }

    /// Changes the screen to `entered` and sets up or tears down what the
    /// change calls for. `y_offsets` gives the middles of the gaps of a new
    /// run, one for each pair of pipes.
    pub fn transition(&self, world: &mut World, entered: AppState, y_offsets: &[i64; PIPE_AMOUNT])
        ensures
            final(world)@ == after_transition(old(world)@, entered, y_offsets@),
    {
        let exited: AppState = world.app_state;
        world.app_state = entered;
        match (exited, entered) {
            (AppState::MainMenu, AppState::Playing) | (AppState::RetryMenu, AppState::Playing) => {
                despawn_score_display(world);
                despawn_player(world);
                despawn_pipes(&mut world.pipes);
                spawn_score_display(world);
                spawn_player(world);
                world.pipes = spawn_pipes(&world.window, y_offsets);
                world.player_state = PlayerState::WaitingToStart;
            },
            (AppState::RetryMenu, AppState::MainMenu) => {
                despawn_score_display(world);
                despawn_player(world);
                despawn_pipes(&mut world.pipes);
            },
            _ => {},
        }
    }

    /// Changes the screen to `entered`, drawing the middles of the gaps of a
    /// new run at random.
    pub fn transition_random(&self, world: &mut World, entered: AppState)
        ensures
            exists|y_offsets: Seq<i64>|
                are_pipe_offsets(y_offsets) && final(world)@ == after_transition(
                    old(world)@,
                    entered,
                    y_offsets,
                ),
    {
        let exited: AppState = world.app_state;
        world.app_state = entered;
        match (exited, entered) {
            (AppState::MainMenu, AppState::Playing) | (AppState::RetryMenu, AppState::Playing) => {
                despawn_score_display(world);
                despawn_player(world);
                despawn_pipes(&mut world.pipes);
                spawn_score_display(world);
                spawn_player(world);
                world.pipes = spawn_pipes_random(&world.window);
                world.player_state = PlayerState::WaitingToStart;
                proof {
                    let y_offsets = choose|y_offsets: Seq<i64>|
                        are_pipe_offsets(y_offsets) && world.pipes@ == spawned_pipes(
                            world.window,
                            y_offsets,
                        );
                    assert(are_pipe_offsets(y_offsets) && world@ == after_transition(
                        old(world)@,
                        entered,
                        y_offsets,
                    ));
                }
            },
            (AppState::RetryMenu, AppState::MainMenu) => {
                despawn_score_display(world);
                despawn_player(world);
                despawn_pipes(&mut world.pipes);
                proof {
                    let y_offsets = Seq::new(PIPE_AMOUNT as nat, |i: int| 0i64);
                    assert(are_pipe_offsets(y_offsets) && world@ == after_transition(
                        old(world)@,
                        entered,
                        y_offsets,
                    ));
                }
            },
            _ => {
                proof {
                    let y_offsets = Seq::new(PIPE_AMOUNT as nat, |i: int| 0i64);
                    assert(are_pipe_offsets(y_offsets) && world@ == after_transition(
                        old(world)@,
                        entered,
                        y_offsets,
                    ));
                }
            },
        }
    }
}

} // verus!
