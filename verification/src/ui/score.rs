//! The score, its display, and the timer that paces it.

use vstd::prelude::*;
use crate::gameplay::pipes::{Direction, Pipe};
use crate::gameplay::player::Player;
use crate::gameplay::{
    PIPE_GAP_SCALED, PIPE_HALF_HEIGHT_SCALED, PLAYER_HEIGHT_SCALED, PLAYER_WIDTH_SCALED,
    SCORE_ZONE_HALF_WIDTH,
};
use crate::timer::{Timer, TimerMode};
use crate::ui::SCORE_TIMER_INTERVAL;
use crate::world::{World, WorldView};

verus! {

/// How points are given. The two rules are alternatives: a world scores by
/// one of them and never by both.
#[derive(Clone, Copy, Debug, PartialEq, Eq, Structural)]
pub enum ScoreRule {
    /// One point each time the score timer finishes: each time the pipes
    /// have scrolled by one spacing.
    ByTime,
    /// One point for each gap, when the player enters the strip in its lower
    /// half.
    ByGap,
}

/// The points of the current run.
#[derive(Clone, Copy, Debug, PartialEq, Eq, Structural)]
pub struct Score(pub u32);

/// The score as it is shown on screen.
#[derive(Clone, Copy, Debug, PartialEq, Eq, Structural)]
pub struct ScoreDisplay {
    /// The number shown.
    pub value: u32,
}

/// The repeating timer that gives a point each time it finishes.
#[derive(Clone, Copy, Debug, PartialEq, Eq, Structural)]
pub struct ScoreTimer(pub Timer);

impl ScoreTimer {
    /// The timer as it starts: repeating every `SCORE_TIMER_INTERVAL`
    /// microseconds, with no time counted.
    pub open spec fn armed() -> ScoreTimer {
        ScoreTimer(
            Timer {
                duration: SCORE_TIMER_INTERVAL,
                elapsed: 0,
                mode: TimerMode::Repeating,
                finished: false,
                times_finished_this_tick: 0,
            },
        )
    }

    /// A timer at its start.
    pub fn new() -> (timer: ScoreTimer)
        ensures
            timer == ScoreTimer::armed(),
    {
        ScoreTimer(Timer::new(SCORE_TIMER_INTERVAL, TimerMode::Repeating))
    }
}

/// The score after `points` more points; it stops at the largest value it
/// can hold.
pub open spec fn score_plus(score: Score, points: int) -> Score {
    if score.0 + points > u32::MAX as int {
        Score(u32::MAX)
    } else {
        Score((score.0 + points) as u32)
    }
}

/// The display, if there is one, showing `score`.
pub open spec fn display_showing(display: Option<ScoreDisplay>, score: Score) -> Option<
    ScoreDisplay,
> {
    match display {
        Some(_) => Some(ScoreDisplay { value: score.0 }),
        None => None,
    }
}

/// The world after [`spawn_score_display`].
pub open spec fn after_spawn_score_display(w: WorldView) -> WorldView {
    WorldView { score: Score(0), score_display: Some(ScoreDisplay { value: 0 }), ..w }
}

/// Sets the score to zero and puts up a display that shows it.
pub fn spawn_score_display(world: &mut World)
    ensures
        final(world)@ == after_spawn_score_display(old(world)@),
{
    world.score = Score(0);
    world.score_display = Some(ScoreDisplay { value: 0 });
}

/// Takes the display down. The score stays.
pub fn despawn_score_display(world: &mut World)
    ensures
        final(world)@ == (WorldView { score_display: None, ..old(world)@ }),
{
    world.score_display = None;
}

/// How many points the next `delta` microseconds give: how many times the
/// score timer finishes in them.
pub open spec fn points_due(w: WorldView, delta: int) -> int {
    match w.score_timer {
        Some(timer) => timer.0.ticked(delta).times_finished_this_tick as int,
        None => 0,
    }
}

/// The world after [`handle_score_timer`].
pub open spec fn after_score_timer(w: WorldView, delta: int) -> WorldView {
    match w.score_timer {
        Some(timer) => if points_due(w, delta) > 0 {
            let score = score_plus(w.score, points_due(w, delta));
            WorldView {
                score_timer: Some(ScoreTimer(timer.0.ticked(delta))),
                score,
                score_display: display_showing(w.score_display, score),
                ..w
            }
        } else {
            WorldView { score_timer: Some(ScoreTimer(timer.0.ticked(delta))), ..w }
        },
        None => w,
    }
}

/// Advances the score timer by `delta` microseconds and gives one point for
/// each time it finished; the display, if it is up, then shows the new
/// score. Returns whether the score went up, which is when the point is to
/// be heard.
pub fn handle_score_timer(world: &mut World, delta: u64) -> (scored: bool)
    ensures
        scored == (points_due(old(world)@, delta as int) > 0),
        final(world)@ == after_score_timer(old(world)@, delta as int),
{
    if let Some(mut delay_timer) = world.score_timer {
        delay_timer.0.tick(delta);
        world.score_timer = Some(delay_timer);
        if delay_timer.0.just_finished() {
            let points: u64 = delay_timer.0.times_finished_this_tick();
            let total: u64 = (world.score.0 as u64).saturating_add(points);
            world.score = if total > u32::MAX as u64 {
                Score(u32::MAX)
            } else {
                Score(total as u32)
            };
            if world.score_display.is_some() {
                world.score_display = Some(ScoreDisplay { value: world.score.0 });
            }
            return true;
        }
    }
    false
}

/// Whether the player's box reaches into the strip beside `pipe` that gives
/// a point. Only the lower pipe of a pair has such a strip, and only until
/// it has given its point. The strip stands in the middle of the pipe's
/// width and runs from the pipe's upper end to the middle of the gap; the
/// player's box reaches its sprite's width to either side of its centre and
/// its sprite's height above and below. Boxes that only touch do not count.
pub open spec fn zone_is_entered(player: Player, pipe: Pipe) -> bool {
    &&& pipe.direction == Direction::Down
    &&& !pipe.scored
    &&& player.x - PLAYER_WIDTH_SCALED < pipe.x + SCORE_ZONE_HALF_WIDTH
    &&& player.x + PLAYER_WIDTH_SCALED > pipe.x - SCORE_ZONE_HALF_WIDTH
    &&& player.y - PLAYER_HEIGHT_SCALED < pipe.y + PIPE_HALF_HEIGHT_SCALED + PIPE_GAP_SCALED
    &&& player.y + PLAYER_HEIGHT_SCALED > pipe.y + PIPE_HALF_HEIGHT_SCALED
}

/// The pipe after its strip has been looked at: marked if it gave its point.
pub open spec fn pipe_after_score(player: Player, pipe: Pipe) -> Pipe {
    if zone_is_entered(player, pipe) {
        Pipe { scored: true, ..pipe }
    } else {
        pipe
    }
}

/// The pipes after their strips have been looked at.
pub open spec fn pipes_after_score(player: Player, pipes: Seq<Pipe>) -> Seq<Pipe> {
    Seq::new(pipes.len(), |i: int| pipe_after_score(player, pipes[i]))
}

/// How many of the pipes give their point to the player.
pub open spec fn zones_entered(player: Player, pipes: Seq<Pipe>) -> int
    decreases pipes.len(),
{
    if pipes.len() == 0 {
        0
    } else {
        zones_entered(player, pipes.drop_last()) + if zone_is_entered(player, pipes.last()) {
            1int
        } else {
            0int
        }
    }
}

/// The world after [`handle_score`].
pub open spec fn after_score(w: WorldView) -> WorldView {
    match w.player {
        Some(body) => {
            let points = zones_entered(body, w.pipes);
            let score = score_plus(w.score, points);
            WorldView {
                pipes: pipes_after_score(body, w.pipes),
                score,
                score_display: if points > 0 {
                    display_showing(w.score_display, score)
                } else {
                    w.score_display
                },
                ..w
            }
        },
        None => w,
    }
}

/// The number of strips entered lies between zero and the number of pipes.
pub proof fn lemma_zones_entered_bounds(player: Player, pipes: Seq<Pipe>)
    ensures
        0 <= zones_entered(player, pipes) <= pipes.len(),
    decreases pipes.len(),
{
    if pipes.len() > 0 {
        lemma_zones_entered_bounds(player, pipes.drop_last());
    }
}

/// A gap gives its point once: after the strips have been looked at, none
/// of them gives a point to the same player again.
pub proof fn lemma_gap_scores_once(player: Player, pipes: Seq<Pipe>)
    ensures
        zones_entered(player, pipes_after_score(player, pipes)) == 0,
    decreases pipes.len(),
{
    if pipes.len() > 0 {
        lemma_gap_scores_once(player, pipes.drop_last());
        assert(pipes_after_score(player, pipes).drop_last() =~= pipes_after_score(
            player,
            pipes.drop_last(),
        ));
    }
}

/// Tests the player's box against the strip beside `pipe`.
fn entered_zone(player: &Player, pipe: &Pipe) -> (entered: bool)
    ensures
        entered == zone_is_entered(*player, *pipe),
{
    let armed: bool = match pipe.direction {
        Direction::Down => !pipe.scored,
        Direction::Up => false,
    };
    let pipe_min_x: i128 = pipe.x as i128 - SCORE_ZONE_HALF_WIDTH as i128;
    let pipe_max_x: i128 = pipe.x as i128 + SCORE_ZONE_HALF_WIDTH as i128;
    let pipe_min_y: i128 = pipe.y as i128 + PIPE_HALF_HEIGHT_SCALED as i128;
    let pipe_max_y: i128 = pipe.y as i128 + PIPE_HALF_HEIGHT_SCALED as i128
        + PIPE_GAP_SCALED as i128;
    let player_min_x: i128 = player.x as i128 - PLAYER_WIDTH_SCALED as i128;
    let player_max_x: i128 = player.x as i128 + PLAYER_WIDTH_SCALED as i128;
    let player_min_y: i128 = player.y as i128 - PLAYER_HEIGHT_SCALED as i128;
    let player_max_y: i128 = player.y as i128 + PLAYER_HEIGHT_SCALED as i128;
    armed && player_min_x < pipe_max_x && player_max_x > pipe_min_x && player_min_y < pipe_max_y
        && player_max_y > pipe_min_y
}

/// Gives one point for each gap whose strip the player has entered, marks
/// those gaps as having given their point and, if there was any, lets the
/// display show the new score. Returns whether the score went up, which is
/// when the point is to be heard.
pub fn handle_score(world: &mut World) -> (scored: bool)
    ensures
        scored == (old(world).player is Some && zones_entered(
            old(world).player->0,
            old(world).pipes@,
        ) > 0),
        final(world)@ == after_score(old(world)@),
        final(world).pipes.len() == old(world).pipes.len(),
{
    if let Some(body) = world.player {
        let ghost before = world.pipes@;
        let mut points: u64 = 0;
        let mut i: usize = 0;
        while i < world.pipes.len()
            invariant
                i <= world.pipes.len(),
                world.pipes.len() == before.len(),
                points == zones_entered(body, before.take(i as int)),
                points <= i,
                forall|j: int|
                    0 <= j < i ==> #[trigger] world.pipes[j] == pipe_after_score(body, before[j]),
                forall|j: int|
                    i <= j < world.pipes.len() ==> #[trigger] world.pipes[j] == before[j],
                world.window == old(world).window,
                world.app_state == old(world).app_state,
                world.player_state == old(world).player_state,
                world.score_rule == old(world).score_rule,
                world.score == old(world).score,
                world.score_display == old(world).score_display,
                world.player == old(world).player,
                world.score_timer == old(world).score_timer,
                world.fall_delay_timer == old(world).fall_delay_timer,
                world.reset_delay_timer == old(world).reset_delay_timer,
            decreases world.pipes.len() - i,
        {
            let pipe: Pipe = world.pipes[i];
            proof {
                assert(before.take(i as int + 1).drop_last() =~= before.take(i as int));
                assert(before.take(i as int + 1).last() == before[i as int]);
            }
            if entered_zone(&body, &pipe) {
                world.pipes.set(i, Pipe { scored: true, ..pipe });
                points = points + 1;
            }
            i = i + 1;
        }
        proof {
            assert(before.take(i as int) =~= before);
            assert(world.pipes@ =~= pipes_after_score(body, before));
        }
        if points > 0 {
            let total: u64 = (world.score.0 as u64).saturating_add(points);
            world.score = if total > u32::MAX as u64 {
                Score(u32::MAX)
            } else {
                Score(total as u32)
            };
            if world.score_display.is_some() {
                world.score_display = Some(ScoreDisplay { value: world.score.0 });
            }
            return true;
        }
    }
    false
}

} // verus!
