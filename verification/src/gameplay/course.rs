//! What holds over the course of a run, whatever the ticks are.

use vstd::prelude::*;
use crate::gameplay::pipes::{lemma_pipe_in_reach_comes_back_ahead, pipe_is_in_reach};
use crate::gameplay::player::{
    player_has_collision, stopped_player, velocity_through, FallDelayTimer, PlayerState,
};
use crate::gameplay::{
    after_motion, after_tick, tick_events, FALL_RESET_DELAY, FALL_SOUND_DELAY, PIPE_AMOUNT,
    PIPE_CYCLE, PIPE_GAP_SCALED, PIPE_HALF_HEIGHT_SCALED, PIPE_HALF_WIDTH_SCALED,
    PIPE_HEIGHT_SCALED, PIPE_SPACING_SCALED, PIPE_SPEED, PIPE_VERTICAL_CENTER,
    PIPE_WIDTH_SCALED, PLAYER_COLLISION_RADIUS_FACTORED, PLAYER_FLAP_FORCE,
    PLAYER_WIDTH_SCALED, PLAYING_GRAVITY_STRENGTH,
};
use crate::timer::{
    lemma_repeating_timer_counts_rounds, lemma_total_is_not_negative, total, Timer, TimerMode,
};
use crate::ui::score::{score_plus, Score, ScoreRule, ScoreTimer};
use crate::ui::SCORE_TIMER_INTERVAL;
use crate::units::{gain, travel, MICROS_PER_SECOND};
use crate::world::{TickEvents, WorldView};

verus! {

/// What one tick is given: the time it covers, whether the flap was pressed,
/// and the middle of the gap for pipes that come back.
#[derive(Clone, Copy, Debug, PartialEq, Eq, Structural)]
pub struct TickInput {
    /// Microseconds the tick covers.
    pub delta: u64,
    /// Whether the flap was pressed since the last tick.
    pub flap_pressed: bool,
    /// The middle of the gap for pipes that come back in this tick.
    pub y_offset: i64,
}

/// The world after one tick with `input`.
pub open spec fn after_input(w: WorldView, input: TickInput) -> WorldView {
    after_tick(w, input.delta as int, input.flap_pressed, input.y_offset as int)
}

/// What the tick with `input` asks of the surroundings.
pub open spec fn events_of(w: WorldView, input: TickInput) -> TickEvents {
    tick_events(w, input.delta as int, input.flap_pressed, input.y_offset as int)
}

/// The world after one tick for each of `inputs`, in their order.
pub open spec fn after_ticks(w: WorldView, inputs: Seq<TickInput>) -> WorldView
    decreases inputs.len(),
{
    if inputs.len() == 0 {
        w
    } else {
        after_input(after_ticks(w, inputs.drop_last()), inputs.last())
    }
}

/// The times that `inputs` cover, one for each tick.
pub open spec fn deltas_of(inputs: Seq<TickInput>) -> Seq<u64> {
    Seq::new(inputs.len(), |i: int| inputs[i].delta)
}

/// The time that `inputs` cover in all.
pub open spec fn time_of(inputs: Seq<TickInput>) -> int {
    total(deltas_of(inputs))
}

/// Whether the player is flapping before the first and after each of the
/// ticks with `inputs`.
pub open spec fn stays_in_flight(w: WorldView, inputs: Seq<TickInput>) -> bool
    decreases inputs.len(),
{
    if inputs.len() == 0 {
        w.player_state == PlayerState::Flapping
    } else {
        stays_in_flight(w, inputs.drop_last()) && after_ticks(w, inputs).player_state
            == PlayerState::Flapping
    }
}

/// Whether none of `inputs` comes with a flap.
pub open spec fn without_flap(inputs: Seq<TickInput>) -> bool {
    forall|i: int| 0 <= i < inputs.len() ==> !(#[trigger] inputs[i]).flap_pressed
}

/// The measures of the game fit together: a cycle is one spacing for each
/// pair, the halves are halves, the middle of a gap is half a pipe and half
/// a gap from either pipe's centre, the player's circle has a quarter of the
/// sprite's width as its radius, and the score timer's period is the time in
/// which the pipes scroll by one spacing.
pub proof fn lemma_measures_fit()
    ensures
        PIPE_CYCLE == PIPE_AMOUNT * PIPE_SPACING_SCALED,
        2 * PIPE_HALF_WIDTH_SCALED == PIPE_WIDTH_SCALED,
        2 * PIPE_HALF_HEIGHT_SCALED == PIPE_HEIGHT_SCALED,
        PIPE_VERTICAL_CENTER == PIPE_HALF_HEIGHT_SCALED + PIPE_GAP_SCALED,
        4 * PLAYER_COLLISION_RADIUS_FACTORED == PLAYER_WIDTH_SCALED,
        SCORE_TIMER_INTERVAL * PIPE_SPEED == PIPE_SPACING_SCALED,
        SCORE_TIMER_INTERVAL == (PIPE_SPACING_SCALED as int) / (PIPE_SPEED as int),
        travel(PIPE_SPEED * MICROS_PER_SECOND, SCORE_TIMER_INTERVAL as int)
            == PIPE_SPACING_SCALED,
{
}

proof fn lemma_deltas_of_earlier(inputs: Seq<TickInput>)
    requires
        inputs.len() > 0,
    ensures
        deltas_of(inputs).drop_last() == deltas_of(inputs.drop_last()),
        deltas_of(inputs).last() == inputs.last().delta,
        time_of(inputs) == time_of(inputs.drop_last()) + inputs.last().delta,
{
    assert(deltas_of(inputs).drop_last() =~= deltas_of(inputs.drop_last()));
}

/// No tick adds or removes a pipe, and none changes the field: after any
/// ticks the world has as many pipes as before.
pub proof fn lemma_pipe_count_is_kept(w: WorldView, inputs: Seq<TickInput>)
    ensures
        after_ticks(w, inputs).pipes.len() == w.pipes.len(),
        after_ticks(w, inputs).window == w.window,
        after_ticks(w, inputs).app_state == w.app_state,
    decreases inputs.len(),
{
    if inputs.len() > 0 {
        lemma_pipe_count_is_kept(w, inputs.drop_last());
    }
}

/// While the player waits to start, a tick with a flap starts the flight:
/// the player flaps, the score timer is armed and nothing else changes. A
/// tick without a flap changes nothing. No other phase can follow.
pub proof fn lemma_first_flap_starts_flight(w: WorldView, input: TickInput)
    requires
        w.player_state == PlayerState::WaitingToStart,
    ensures
        input.flap_pressed ==> after_input(w, input).player_state == PlayerState::Flapping,
        input.flap_pressed && w.score_rule == ScoreRule::ByTime ==> after_input(
            w,
            input,
        ).score_timer == Some(ScoreTimer::armed()),
        input.flap_pressed && w.player is Some ==> after_input(w, input).player->0.velocity
            == PLAYER_FLAP_FORCE,
        !input.flap_pressed ==> after_input(w, input) == w,
        events_of(w, input).flap_sound == input.flap_pressed,
{
}

/// While the player flaps, a tick ends the flight exactly if the player,
/// after the motion of the tick, touches a pipe or an edge of the field.
/// Then the player is stopped, the fall delay is armed, the score timer is
/// gone and the impact is to be heard; otherwise the flight goes on.
pub proof fn lemma_collision_ends_flight(w: WorldView, input: TickInput)
    requires
        w.player_state == PlayerState::Flapping,
    ensures
        ({
            let moved = after_motion(w, input.delta as int, input.y_offset as int);
            let after = after_input(w, input);
            let events = events_of(w, input);
            if player_has_collision(moved) {
                &&& after.player_state == PlayerState::WaitingToFall
                &&& after.player == stopped_player(moved.player)
                &&& after.player->0.velocity == 0
                &&& after.fall_delay_timer == Some(FallDelayTimer::armed())
                &&& after.score_timer is None
                &&& after.score == w.score
                &&& events.smack_sound
            } else {
                &&& after.player_state == PlayerState::Flapping
                &&& !events.smack_sound
            }
        }),
{
}

/// A collision is taken once. After the flight has ended, no tick reports an
/// impact or arms the fall delay again, and the run never goes back to
/// flapping or waiting to start, however long player and pipes overlap.
pub proof fn lemma_collision_is_taken_once(w: WorldView, inputs: Seq<TickInput>, next: TickInput)
    requires
        w.player_state == PlayerState::WaitingToFall || w.player_state == PlayerState::Falling,
    ensures
        ({
            let now = after_ticks(w, inputs);
            let after = after_input(now, next);
            &&& now.player_state == PlayerState::WaitingToFall || now.player_state
                == PlayerState::Falling
            &&& !events_of(now, next).smack_sound
            &&& after.fall_delay_timer matches Some(timer) ==> {
                &&& now.fall_delay_timer is Some
                &&& timer == now.fall_delay_timer->0 || timer.0 == (
                now.fall_delay_timer->0).0.ticked(next.delta as int)
            }
        }),
    decreases inputs.len(),
{
    if inputs.len() > 0 {
        lemma_collision_is_taken_once(w, inputs.drop_last(), inputs.last());
    }
}

/// The fall does not begin early. While the run waits to fall with a fall
/// delay that has not finished, it goes on waiting as long as the time
/// counted stays below the delay, and it is falling once that time has
/// reached the delay.
pub proof fn lemma_fall_waits_for_delay(w: WorldView, inputs: Seq<TickInput>)
    requires
        w.player_state == PlayerState::WaitingToFall,
        w.fall_delay_timer is Some,
        (w.fall_delay_timer->0).0.mode == TimerMode::Once,
        !(w.fall_delay_timer->0).0.finished,
    ensures
        ({
            let timer = (w.fall_delay_timer->0).0;
            let now = after_ticks(w, inputs);
            if timer.elapsed + time_of(inputs) < timer.duration || inputs.len() == 0 {
                &&& now.player_state == PlayerState::WaitingToFall
                &&& now.fall_delay_timer is Some
                &&& (now.fall_delay_timer->0).0.mode == TimerMode::Once
                &&& (now.fall_delay_timer->0).0.duration == timer.duration
                &&& !(now.fall_delay_timer->0).0.finished
                &&& (now.fall_delay_timer->0).0.elapsed == timer.elapsed + time_of(inputs)
            } else {
                now.player_state == PlayerState::Falling
            }
        }),
    decreases inputs.len(),
{
    if inputs.len() > 0 {
        let earlier = inputs.drop_last();
        lemma_fall_waits_for_delay(w, earlier);
        lemma_deltas_of_earlier(inputs);
        lemma_total_is_not_negative(deltas_of(earlier));
    }
}

/// Only a flight gives points. A tick that starts in another phase leaves
/// the score as it is and reports no point.
pub proof fn lemma_points_only_in_flight(w: WorldView, input: TickInput)
    requires
        w.player_state != PlayerState::Flapping,
    ensures
        after_input(w, input).score == w.score,
        !events_of(w, input).score_sound,
{
}

/// Adding points in two steps is adding their sum.
pub proof fn lemma_score_plus_adds_up(score: Score, first: int, second: int)
    requires
        0 <= first,
        0 <= second,
    ensures
        score_plus(score_plus(score, first), second) == score_plus(score, first + second),
{
}

/// A flight scores by its time. Where points are given for the time flown,
/// over any ticks during which the player goes on flapping, the score grows
/// by the number of times the score timer's
/// period fits into the time counted: its time at the start and the time of
/// the ticks. It stops at the largest value it can hold.
pub proof fn lemma_flight_scores_by_time(w: WorldView, inputs: Seq<TickInput>)
    requires
        stays_in_flight(w, inputs),
        w.score_rule == ScoreRule::ByTime,
        w.score_timer is Some,
        (w.score_timer->0).0.mode == TimerMode::Repeating,
        0 < (w.score_timer->0).0.duration,
        (w.score_timer->0).0.elapsed < (w.score_timer->0).0.duration,
    ensures
        ({
            let timer = (w.score_timer->0).0;
            let now = after_ticks(w, inputs);
            &&& now.score == score_plus(
                w.score,
                (timer.elapsed + time_of(inputs)) / (timer.duration as int),
            )
            &&& now.score_timer is Some
            &&& (now.score_timer->0).0.elapsed == (timer.elapsed + time_of(inputs)) % (
            timer.duration as int)
        }),
{
    let timer = (w.score_timer->0).0;
    lemma_flight_follows_timer(w, inputs);
    lemma_repeating_timer_counts_rounds(timer, deltas_of(inputs));
}

proof fn lemma_rounds_are_not_negative(timer: Timer, deltas: Seq<u64>)
    ensures
        0 <= timer.rounds_through(deltas),
    decreases deltas.len(),
{
    if deltas.len() > 0 {
        lemma_rounds_are_not_negative(timer, deltas.drop_last());
    }
}

proof fn lemma_in_flight_now(w: WorldView, inputs: Seq<TickInput>)
    requires
        stays_in_flight(w, inputs),
    ensures
        after_ticks(w, inputs).player_state == PlayerState::Flapping,
{
}

proof fn lemma_flight_follows_timer(w: WorldView, inputs: Seq<TickInput>)
    requires
        stays_in_flight(w, inputs),
        w.score_rule == ScoreRule::ByTime,
        w.score_timer is Some,
    ensures
        ({
            let timer = (w.score_timer->0).0;
            let now = after_ticks(w, inputs);
            &&& now.score_rule == ScoreRule::ByTime
            &&& now.score == score_plus(w.score, timer.rounds_through(deltas_of(inputs)))
            &&& now.score_timer == Some(ScoreTimer(timer.ticked_through(deltas_of(inputs))))
        }),
    decreases inputs.len(),
{
    let timer = (w.score_timer->0).0;
    if inputs.len() > 0 {
        let earlier = inputs.drop_last();
        let input = inputs.last();
        lemma_flight_follows_timer(w, earlier);
        lemma_deltas_of_earlier(inputs);
        lemma_rounds_are_not_negative(timer, deltas_of(earlier));
        lemma_in_flight_now(w, earlier);
        let before = after_ticks(w, earlier);
        let moved = after_motion(before, input.delta as int, input.y_offset as int);
        assert(!player_has_collision(moved));
        assert(moved.score_timer == before.score_timer);
        assert(moved.score == before.score);
        let ticked = timer.ticked_through(deltas_of(earlier)).ticked(input.delta as int);
        assert(timer.ticked_through(deltas_of(inputs)) == ticked);
        lemma_score_plus_adds_up(
            w.score,
            timer.rounds_through(deltas_of(earlier)),
            ticked.times_finished_this_tick as int,
        );
    }
}

/// A flight that starts with the first flap scores one point for each whole
/// period of the score timer that it has lasted: the time in which the pipes
/// scroll by one spacing.
pub proof fn lemma_fresh_flight_scores_by_interval(
    w: WorldView,
    first: TickInput,
    inputs: Seq<TickInput>,
)
    requires
        w.player_state == PlayerState::WaitingToStart,
        w.score_rule == ScoreRule::ByTime,
        first.flap_pressed,
        stays_in_flight(after_input(w, first), inputs),
    ensures
        after_ticks(after_input(w, first), inputs).score == score_plus(
            w.score,
            time_of(inputs) / (SCORE_TIMER_INTERVAL as int),
        ),
{
    lemma_flight_scores_by_time(after_input(w, first), inputs);
}

/// Without a flap, a flight follows gravity: over any ticks during which
/// the player goes on flapping and no flap is pressed, the player's
/// velocity is the one that the pull of controlled flight leaves of the
/// velocity at the start.
pub proof fn lemma_flight_follows_gravity(w: WorldView, inputs: Seq<TickInput>)
    requires
        stays_in_flight(w, inputs),
        without_flap(inputs),
        w.player is Some,
    ensures
        after_ticks(w, inputs).player is Some,
        after_ticks(w, inputs).player->0.velocity == velocity_through(
            w.player->0.velocity as int,
            deltas_of(inputs),
            PLAYING_GRAVITY_STRENGTH as int,
        ),
    decreases inputs.len(),
{
    if inputs.len() > 0 {
        let earlier = inputs.drop_last();
        let input = inputs.last();
        lemma_flight_follows_gravity(w, earlier);
        lemma_deltas_of_earlier(inputs);
        lemma_in_flight_now(w, earlier);
        let before = after_ticks(w, earlier);
        let moved = after_motion(before, input.delta as int, input.y_offset as int);
        assert(!player_has_collision(moved));
        assert(!input.flap_pressed);
    }
}

/// Whether every pipe of the world is in reach.
pub open spec fn pipes_are_in_reach(w: WorldView, reach: int) -> bool {
    forall|i: int|
        0 <= i < w.pipes.len() ==> pipe_is_in_reach(#[trigger] w.pipes[i], w.window, reach)
}

/// Whether none of `inputs` lets the pipes scroll further than `reach`.
pub open spec fn scrolls_within(inputs: Seq<TickInput>, reach: int) -> bool {
    forall|i: int|
        0 <= i < inputs.len() ==> gain(PIPE_SPEED as int, (#[trigger] inputs[i]).delta as int)
            <= reach
}

/// The pipes never fall behind. If every pipe is in reach, no tick scrolls
/// further than `reach`, and a cycle is at least as long as the field is
/// wide, half a pipe and twice the reach together, then after any ticks
/// every pipe is still in reach, so each pipe that leaves the field comes
/// back at or beyond its right edge in the tick after.
pub proof fn lemma_pipes_stay_in_reach(w: WorldView, inputs: Seq<TickInput>, reach: int)
    requires
        pipes_are_in_reach(w, reach),
        scrolls_within(inputs, reach),
        PIPE_CYCLE >= (w.window.max_x() - w.window.min_x()) + PIPE_HALF_WIDTH_SCALED + 2 * reach,
    ensures
        pipes_are_in_reach(after_ticks(w, inputs), reach),
    decreases inputs.len(),
{
    if inputs.len() > 0 {
        let earlier = inputs.drop_last();
        let input = inputs.last();
        assert forall|i: int| 0 <= i < earlier.len() implies gain(
            PIPE_SPEED as int,
            (#[trigger] earlier[i]).delta as int,
        ) <= reach by {
            assert(earlier[i] == inputs[i]);
        }
        lemma_pipes_stay_in_reach(w, earlier, reach);
        lemma_pipe_count_is_kept(w, earlier);
        let before = after_ticks(w, earlier);
        let after = after_ticks(w, inputs);
        assert forall|i: int| 0 <= i < after.pipes.len() implies pipe_is_in_reach(
            #[trigger] after.pipes[i],
            after.window,
            reach,
        ) by {
            assert(pipe_is_in_reach(before.pipes[i], before.window, reach));
            lemma_pipe_in_reach_comes_back_ahead(
                before.pipes[i],
                before.window,
                input.delta,
                input.y_offset,
                reach,
            );
        }
    }
}

impl WorldView {
    /// Whether the timers fit the phase of the run: a flight that scores by
    /// time has its score timer, with time left in its round; a run that
    /// waits to fall has its fall delay, not yet finished; and the reset
    /// delay of a falling run, while it exists, has not finished.
    pub open spec fn timers_fit_phase(self) -> bool {
        match self.player_state {
            PlayerState::WaitingToStart => true,
            PlayerState::Flapping => self.score_rule == ScoreRule::ByTime ==> {
                &&& self.score_timer is Some
                &&& (self.score_timer->0).0.mode == TimerMode::Repeating
                &&& (self.score_timer->0).0.duration == SCORE_TIMER_INTERVAL
                &&& (self.score_timer->0).0.elapsed < SCORE_TIMER_INTERVAL
            },
            PlayerState::WaitingToFall => {
                &&& self.fall_delay_timer is Some
                &&& (self.fall_delay_timer->0).0.mode == TimerMode::Once
                &&& (self.fall_delay_timer->0).0.duration == FALL_SOUND_DELAY
                &&& (self.fall_delay_timer->0).0.elapsed < FALL_SOUND_DELAY
                &&& !(self.fall_delay_timer->0).0.finished
            },
            PlayerState::Falling => self.reset_delay_timer is Some ==> {
                &&& (self.reset_delay_timer->0).0.mode == TimerMode::Once
                &&& (self.reset_delay_timer->0).0.duration == FALL_RESET_DELAY
                &&& (self.reset_delay_timer->0).0.elapsed < FALL_RESET_DELAY
                &&& !(self.reset_delay_timer->0).0.finished
            },
        }
    }
}

/// The timers always fit the phase. A world in which they do keeps them so
/// through any ticks; and they do in every world that waits to start, as a
/// new run does.
pub proof fn lemma_timers_fit_phase(w: WorldView, inputs: Seq<TickInput>)
    requires
        w.timers_fit_phase(),
    ensures
        after_ticks(w, inputs).timers_fit_phase(),
    decreases inputs.len(),
{
    if inputs.len() > 0 {
        lemma_timers_fit_phase(w, inputs.drop_last());
        let before = after_ticks(w, inputs.drop_last());
        let input = inputs.last();
        if before.player_state == PlayerState::Flapping && before.score_rule == ScoreRule::ByTime {
            let moved = after_motion(before, input.delta as int, input.y_offset as int);
            if !player_has_collision(moved) {
                crate::timer::lemma_repeating_tick((before.score_timer->0).0, input.delta);
            }
        }
    }
}

} // verus!
