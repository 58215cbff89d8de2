//! The player's body and its motion.

use vstd::prelude::*;
use crate::units::{clamp, gain, gained, saturate, saturated, toward_zero, travel, travelled};
use crate::app::AppState;
use crate::gameplay::collision::{
    player_leaves_screen, player_meets_pipes, player_pipe_collision, player_screen_collision,
};
use crate::timer::{lemma_total_is_not_negative, total, Timer, TimerMode};
use crate::ui::score::{ScoreRule, ScoreTimer};
use crate::world::{World, WorldView};
use crate::gameplay::{
    ANIMATION_GRAVITY_STRENGTH, FALL_RESET_DELAY, FALL_SOUND_DELAY, MAX_ROTATION,
    PLAYER_FLAP_FORCE, PLAYING_GRAVITY_STRENGTH, VELOCITY_TO_ROTATION_RATIO,
};

verus! {

/// The player's body: where its centre is, how fast it rises, and how far it
/// is tilted.
#[derive(Clone, Copy, Debug, PartialEq, Eq, Structural)]
pub struct Player {
    /// Horizontal position of the centre, in sub-units.
    pub x: i64,
    /// Vertical position of the centre, in sub-units.
    pub y: i64,
    /// Vertical speed in sub-units per second; positive is upward.
    pub velocity: i64,
    /// Tilt in millionths of a degree, between `-MAX_ROTATION` and
    /// `MAX_ROTATION`.
    pub rotation: i64,
}

/// The phases of a run.
#[derive(Clone, Copy, Debug, PartialEq, Eq, Hash, Structural)]
pub enum PlayerState {
    /// The player rests until the first flap.
    WaitingToStart,
    /// The player has hit something and hangs still for a moment.
    WaitingToFall,
    /// The player drops out of the field.
    Falling,
    /// The player is in control.
    Flapping,
}

/// The one-shot timer between a collision and the start of the fall.
#[derive(Clone, Copy, Debug, PartialEq, Eq, Structural)]
pub struct FallDelayTimer(pub Timer);

/// The one-shot timer between the start of the fall and the end of the run.
#[derive(Clone, Copy, Debug, PartialEq, Eq, Structural)]
pub struct ResetDelayTimer(pub Timer);

impl FallDelayTimer {
    /// The timer as it starts: `FALL_SOUND_DELAY` microseconds to go.
    pub open spec fn armed() -> FallDelayTimer {
        FallDelayTimer(
            Timer {
                duration: FALL_SOUND_DELAY,
                elapsed: 0,
                mode: TimerMode::Once,
                finished: false,
                times_finished_this_tick: 0,
            },
        )
    }

    /// A timer at its start.
    pub fn new() -> (timer: FallDelayTimer)
        ensures
            timer == FallDelayTimer::armed(),
    {
        FallDelayTimer(Timer::new(FALL_SOUND_DELAY, TimerMode::Once))
    }
}

impl ResetDelayTimer {
    /// The timer as it starts: `FALL_RESET_DELAY` microseconds to go.
    pub open spec fn armed() -> ResetDelayTimer {
        ResetDelayTimer(
            Timer {
                duration: FALL_RESET_DELAY,
                elapsed: 0,
                mode: TimerMode::Once,
                finished: false,
                times_finished_this_tick: 0,
            },
        )
    }

    /// A timer at its start.
    pub fn new() -> (timer: ResetDelayTimer)
        ensures
            timer == ResetDelayTimer::armed(),
    {
        ResetDelayTimer(Timer::new(FALL_RESET_DELAY, TimerMode::Once))
    }
}

/// The tilt that goes with a velocity.
pub open spec fn rotation_for(velocity: int) -> int {
    clamp(
        toward_zero(velocity, VELOCITY_TO_ROTATION_RATIO as int),
        -(MAX_ROTATION as int),
        MAX_ROTATION as int,
    )
}

/// The velocity after `delta` microseconds under a pull of `gravity`.
pub open spec fn velocity_after(velocity: int, delta: int, gravity: int) -> int {
    saturated(velocity - gain(gravity, delta))
}

/// The height after moving for `delta` microseconds at `velocity`.
pub open spec fn height_after(y: int, velocity: int, delta: int) -> int {
    saturated(y + travel(velocity, delta))
}

impl Player {
    /// The player after gravity has acted for `delta` microseconds: the
    /// velocity drops first and the body then moves at the new velocity. The
    /// tilt is left as it was.
    pub open spec fn pulled(self, delta: int, gravity: int) -> Player {
        let velocity = velocity_after(self.velocity as int, delta, gravity);
        Player {
            x: self.x,
            y: height_after(self.y as int, velocity, delta) as i64,
            velocity: velocity as i64,
            rotation: self.rotation,
        }
    }

    /// The player with its tilt brought in line with its velocity.
    pub open spec fn tilted(self) -> Player {
        Player { rotation: rotation_for(self.velocity as int) as i64, ..self }
    }

    /// The player after one step of `delta` microseconds under `gravity`.
    pub open spec fn integrated(self, delta: int, gravity: int) -> Player {
        self.pulled(delta, gravity).tilted()
    }

    /// The player with its velocity replaced by `impulse`.
    pub open spec fn flapped(self, impulse: int) -> Player {
        Player { velocity: impulse as i64, ..self }
    }

    /// A player at rest at the origin.
    pub fn new() -> (player: Player)
        ensures
            player == (Player { x: 0, y: 0, velocity: 0, rotation: 0 }),
    {
        Player { x: 0, y: 0, velocity: 0, rotation: 0 }
    }

    /// Lets a pull of `gravity` units per second squared act for `delta`
    /// microseconds: the velocity drops, then the body moves at the new
    /// velocity.
    pub fn pull(&mut self, delta: u64, gravity: u32)
        ensures
            *final(self) == old(self).pulled(delta as int, gravity as int),
    {
        let velocity: i64 = saturate(self.velocity as i128 - gained(gravity, delta));
        let y: i64 = saturate(self.y as i128 + travelled(velocity, delta));
        self.velocity = velocity;
        self.y = y;
    }

    /// Advances the body by `delta` microseconds under a pull of `gravity`
    /// units per second squared, then sets the tilt from the new velocity.
    pub fn integrate(&mut self, delta: u64, gravity: u32)
        ensures
            *final(self) == old(self).integrated(delta as int, gravity as int),
            -MAX_ROTATION <= final(self).rotation <= MAX_ROTATION,
            final(self).rotation == rotation_for(final(self).velocity as int),
    {
        self.pull(delta, gravity);
        apply_player_rotation(self);
    }

    /// Replaces the velocity by `impulse`, whatever it was.
    pub fn flap(&mut self, impulse: i64)
        ensures
            *final(self) == old(self).flapped(impulse as int),
            final(self).velocity == impulse,
    {
        self.velocity = impulse;
    }
}

/// Lets the stronger gravity of controlled flight act on the player for
/// `delta` microseconds.
pub fn apply_player_gravity(player: &mut Player, delta: u64)
    ensures
        *final(player) == old(player).pulled(delta as int, PLAYING_GRAVITY_STRENGTH as int),
{
    player.pull(delta, PLAYING_GRAVITY_STRENGTH);
}

/// Lets the weaker gravity of the final fall act on the player for `delta`
/// microseconds.
pub fn apply_player_animation_gravity(player: &mut Player, delta: u64)
    ensures
        *final(player) == old(player).pulled(delta as int, ANIMATION_GRAVITY_STRENGTH as int),
{
    player.pull(delta, ANIMATION_GRAVITY_STRENGTH);
}

/// Sets the tilt from the velocity.
pub fn apply_player_rotation(player: &mut Player)
    ensures
        *final(player) == old(player).tilted(),
        -MAX_ROTATION <= final(player).rotation <= MAX_ROTATION,
{
    let tilt: i64 = player.velocity / VELOCITY_TO_ROTATION_RATIO;
    if tilt < -MAX_ROTATION {
        player.rotation = -MAX_ROTATION;
    } else if tilt > MAX_ROTATION {
        player.rotation = MAX_ROTATION;
    } else {
        player.rotation = tilt;
    }
}

/// The velocity after gravity has acted through one tick for each of
/// `deltas`.
pub open spec fn velocity_through(velocity: int, deltas: Seq<u64>, gravity: int) -> int
    decreases deltas.len(),
{
    if deltas.len() == 0 {
        velocity
    } else {
        velocity_after(
            velocity_through(velocity, deltas.drop_last(), gravity),
            deltas.last() as int,
            gravity,
        )
    }
}

/// After a step the tilt is the one that goes with the new velocity, and it
/// lies within the largest tilt either way.
pub proof fn lemma_rotation_follows_velocity(player: Player, delta: int, gravity: int)
    ensures
        player.integrated(delta, gravity).rotation == rotation_for(
            player.integrated(delta, gravity).velocity as int,
        ),
        player.integrated(delta, gravity).velocity == velocity_after(
            player.velocity as int,
            delta,
            gravity,
        ),
        -MAX_ROTATION <= player.integrated(delta, gravity).rotation <= MAX_ROTATION,
{
}

/// A tick that covers no time moves nothing: the player stays as it is.
pub proof fn lemma_no_time_no_motion(player: Player, gravity: int)
    ensures
        player.pulled(0, gravity) == player,
{
    assert(gain(gravity, 0) == 0) by (nonlinear_arith);
    assert(player.velocity * 0 == 0) by (nonlinear_arith);
}

/// A flap overwrites the velocity: the new velocity is the impulse whatever
/// the old one was, so a second flap with the same impulse changes nothing.
pub proof fn lemma_flap_overwrites(player: Player, other: Player, impulse: i64)
    ensures
        player.flapped(impulse as int).velocity == impulse,
        player.flapped(impulse as int).velocity == other.flapped(impulse as int).velocity,
        player.flapped(impulse as int).flapped(impulse as int) == player.flapped(impulse as int),
{
}

/// Under gravity the velocity falls in proportion to the time counted, as
/// long as it can be held: after any ticks it is the old velocity less the
/// pull times the time of the ticks.
pub proof fn lemma_velocity_falls_with_time(velocity: i64, deltas: Seq<u64>, gravity: u32)
    requires
        velocity - gravity * total(deltas) >= i64::MIN,
    ensures
        velocity_through(velocity as int, deltas, gravity as int) == velocity - gravity * total(
            deltas,
        ),
    decreases deltas.len(),
{
    if deltas.len() > 0 {
        let earlier = deltas.drop_last();
        lemma_total_is_not_negative(earlier);
        lemma_total_is_not_negative(deltas);
        assert(gravity * total(deltas) == gravity * total(earlier) + gravity * deltas.last()
            && 0 <= gravity * total(earlier) && 0 <= gravity * deltas.last())
            by (nonlinear_arith)
            requires
                total(deltas) == total(earlier) + deltas.last(),
                0 <= total(earlier),
                0 <= gravity,
                0 <= deltas.last(),
        ;
        lemma_velocity_falls_with_time(velocity, earlier, gravity);
    }
}

/// The player as a run starts: at rest at the origin.
pub open spec fn fresh_player() -> Player {
    Player { x: 0, y: 0, velocity: 0, rotation: 0 }
}

/// Puts a player at rest at the origin into the world, in place of any that
/// was there.
pub fn spawn_player(world: &mut World)
    ensures
        final(world)@ == (WorldView { player: Some(fresh_player()), ..old(world)@ }),
{
    world.player = Some(Player::new());
}

/// Takes the player out of the world.
pub fn despawn_player(world: &mut World)
    ensures
        final(world)@ == (WorldView { player: None, ..old(world)@ }),
{
    world.player = None;
}

/// The player, if there is one, with `impulse` as its velocity.
pub open spec fn flapped_player(player: Option<Player>, impulse: int) -> Option<Player> {
    match player {
        Some(body) => Some(body.flapped(impulse)),
        None => None,
    }
}

/// The world after [`update_player_transform`].
pub open spec fn after_update_player_transform(w: WorldView, delta: int) -> WorldView {
    match w.player {
        Some(body) => WorldView {
            player: Some(body.integrated(delta, PLAYING_GRAVITY_STRENGTH as int)),
            ..w
        },
        None => w,
    }
}

/// Moves the player through `delta` microseconds of controlled flight:
/// gravity, then the tilt.
pub fn update_player_transform(world: &mut World, delta: u64)
    ensures
        final(world)@ == after_update_player_transform(old(world)@, delta as int),
{
    if let Some(mut body) = world.player {
        apply_player_gravity(&mut body, delta);
        apply_player_rotation(&mut body);
        world.player = Some(body);
    }
}

/// The world after [`handle_fall_animation`].
pub open spec fn after_fall_animation(w: WorldView, delta: int) -> WorldView {
    match w.player {
        Some(body) => WorldView {
            player: Some(body.integrated(delta, ANIMATION_GRAVITY_STRENGTH as int)),
            ..w
        },
        None => w,
    }
}

/// Moves the player through `delta` microseconds of the final fall: the
/// weaker gravity, then the tilt.
pub fn handle_fall_animation(world: &mut World, delta: u64)
    ensures
        final(world)@ == after_fall_animation(old(world)@, delta as int),
{
    if let Some(mut body) = world.player {
        apply_player_animation_gravity(&mut body, delta);
        apply_player_rotation(&mut body);
        world.player = Some(body);
    }
}

/// Whether [`handle_frozen_toggle`] starts the flight.
pub open spec fn flight_starts(w: WorldView, flap_pressed: bool) -> bool {
    flap_pressed && w.player_state == PlayerState::WaitingToStart
}

/// The score timer at the start of a flight: armed where points are given for
/// the time flown, and left as it is where they are given for gaps.
pub open spec fn score_timer_at_start(w: WorldView) -> Option<ScoreTimer> {
    match w.score_rule {
        ScoreRule::ByTime => Some(ScoreTimer::armed()),
        ScoreRule::ByGap => w.score_timer,
    }
}

/// The world after [`handle_frozen_toggle`].
pub open spec fn after_frozen_toggle(w: WorldView, flap_pressed: bool) -> WorldView {
    if flight_starts(w, flap_pressed) {
        WorldView {
            score_timer: score_timer_at_start(w),
            player_state: PlayerState::Flapping,
            player: flapped_player(w.player, PLAYER_FLAP_FORCE as int),
            ..w
        }
    } else {
        w
    }
}

/// Starts the flight on the first flap: while the player waits to start, a
/// flap arms the score timer where points are given for the time flown,
/// makes the player flap and puts the run into its flapping phase. Returns
/// whether it did, which is when the flap is to be heard.
pub fn handle_frozen_toggle(world: &mut World, flap_pressed: bool) -> (started: bool)
    ensures
        started == flight_starts(old(world)@, flap_pressed),
        final(world)@ == after_frozen_toggle(old(world)@, flap_pressed),
{
    if flap_pressed {
        if let PlayerState::WaitingToStart = world.player_state {
            if let ScoreRule::ByTime = world.score_rule {
                world.score_timer = Some(ScoreTimer::new());
            }
            world.player_state = PlayerState::Flapping;
            if let Some(mut body) = world.player {
                body.flap(PLAYER_FLAP_FORCE);
                world.player = Some(body);
            }
            return true;
        }
    }
    false
}

/// The world after [`handle_player_input`].
pub open spec fn after_player_input(w: WorldView, flap_pressed: bool) -> WorldView {
    if flap_pressed {
        WorldView { player: flapped_player(w.player, PLAYER_FLAP_FORCE as int), ..w }
    } else {
        w
    }
}

/// Makes the player flap if the flap was pressed. Returns whether it was,
/// which is when the flap is to be heard.
pub fn handle_player_input(world: &mut World, flap_pressed: bool) -> (flapped: bool)
    ensures
        flapped == flap_pressed,
        final(world)@ == after_player_input(old(world)@, flap_pressed),
{
    if flap_pressed {
        if let Some(mut body) = world.player {
            body.flap(PLAYER_FLAP_FORCE);
            world.player = Some(body);
        }
    }
    flap_pressed
}

/// Whether the player touches a pipe or an edge of the field.
pub open spec fn player_has_collision(w: WorldView) -> bool {
    match w.player {
        Some(body) => player_meets_pipes(body, w.pipes) || player_leaves_screen(body, w.window),
        None => false,
    }
}

/// The player, if there is one, brought to a halt.
pub open spec fn stopped_player(player: Option<Player>) -> Option<Player> {
    match player {
        Some(body) => Some(Player { velocity: 0, ..body }),
        None => None,
    }
}

/// The world after [`handle_player_collision`].
pub open spec fn after_player_collision(w: WorldView) -> WorldView {
    if player_has_collision(w) {
        WorldView {
            score_timer: None,
            player: stopped_player(w.player),
            player_state: PlayerState::WaitingToFall,
            fall_delay_timer: Some(FallDelayTimer::armed()),
            ..w
        }
    } else {
        w
    }
}

/// Ends the flight on a collision: if the player touches a pipe or an edge
/// of the field, the score timer goes, the player stops, the fall delay
/// starts and the run waits for the fall. Returns whether there was a
/// collision, which is when the impact is to be heard.
pub fn handle_player_collision(world: &mut World) -> (hit: bool)
    ensures
        hit == player_has_collision(old(world)@),
        final(world)@ == after_player_collision(old(world)@),
{
    if let Some(mut body) = world.player {
        let player_has_collision: bool = player_pipe_collision(&body, &world.pipes)
            || player_screen_collision(&body, &world.window);
        if player_has_collision {
            world.score_timer = None;
            body.velocity = 0;
            world.player = Some(body);
            world.player_state = PlayerState::WaitingToFall;
            world.fall_delay_timer = Some(FallDelayTimer::new());
            return true;
        }
    }
    false
}

/// Whether the fall delay ends within the next `delta` microseconds.
pub open spec fn fall_begins(w: WorldView, delta: int) -> bool {
    match w.fall_delay_timer {
        Some(timer) => timer.0.ticked(delta).times_finished_this_tick > 0,
        None => false,
    }
}

/// The world after [`handle_fall_sound_delay_timer`].
pub open spec fn after_fall_sound_delay_timer(w: WorldView, delta: int) -> WorldView {
    match w.fall_delay_timer {
        Some(timer) => if fall_begins(w, delta) {
            WorldView {
                player_state: PlayerState::Falling,
                reset_delay_timer: Some(ResetDelayTimer::armed()),
                fall_delay_timer: None,
                ..w
            }
        } else {
            WorldView { fall_delay_timer: Some(FallDelayTimer(timer.0.ticked(delta))), ..w }
        },
        None => w,
    }
}

/// Advances the fall delay by `delta` microseconds. When it ends, the timer
/// goes, the reset delay starts and the run enters its falling phase.
/// Returns whether it ended, which is when the fall is to be heard.
pub fn handle_fall_sound_delay_timer(world: &mut World, delta: u64) -> (fell: bool)
    ensures
        fell == fall_begins(old(world)@, delta as int),
        final(world)@ == after_fall_sound_delay_timer(old(world)@, delta as int),
{
    if let Some(mut delay_timer) = world.fall_delay_timer {
        delay_timer.0.tick(delta);
        if delay_timer.0.just_finished() {
            world.player_state = PlayerState::Falling;
            world.reset_delay_timer = Some(ResetDelayTimer::new());
            world.fall_delay_timer = None;
            return true;
        }
        world.fall_delay_timer = Some(delay_timer);
    }
    false
}

/// Whether the reset delay ends within the next `delta` microseconds.
pub open spec fn run_ends(w: WorldView, delta: int) -> bool {
    match w.reset_delay_timer {
        Some(timer) => timer.0.ticked(delta).times_finished_this_tick > 0,
        None => false,
    }
}

/// The world after [`handle_fall_reset_delay_timer`].
pub open spec fn after_fall_reset_delay_timer(w: WorldView, delta: int) -> WorldView {
    match w.reset_delay_timer {
        Some(timer) => if run_ends(w, delta) {
            WorldView { reset_delay_timer: None, ..w }
        } else {
            WorldView { reset_delay_timer: Some(ResetDelayTimer(timer.0.ticked(delta))), ..w }
        },
        None => w,
    }
}

/// The screen that [`handle_fall_reset_delay_timer`] asks for.
pub open spec fn screen_after_run(w: WorldView, delta: int) -> Option<AppState> {
    if run_ends(w, delta) {
        Some(AppState::RetryMenu)
    } else {
        None
    }
}

/// Advances the reset delay by `delta` microseconds. When it ends, the timer
/// goes and the run is over: the retry menu is asked for. The phase of the
/// run and everything else stay as they are.
pub fn handle_fall_reset_delay_timer(world: &mut World, delta: u64) -> (next_app_state: Option<
    AppState,
>)
    ensures
        next_app_state == screen_after_run(old(world)@, delta as int),
        final(world)@ == after_fall_reset_delay_timer(old(world)@, delta as int),
{
    if let Some(mut delay_timer) = world.reset_delay_timer {
        delay_timer.0.tick(delta);
        if delay_timer.0.just_finished() {
            world.reset_delay_timer = None;
            return Some(AppState::RetryMenu);
        }
        world.reset_delay_timer = Some(delay_timer);
    }
    None
}

} // verus!
