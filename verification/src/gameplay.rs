//! The rules of a run: the player's body, the pipes, and what happens when
//! they meet.

use vstd::prelude::*;
use rand::rngs::ThreadRng;
use crate::gameplay::pipes::{
    generate_pipe_offset, is_pipe_offset, pipes_after_tick, pipes_to_reset,
    update_pipe_transforms,
};
use crate::gameplay::player::{
    after_fall_animation, after_fall_reset_delay_timer, after_fall_sound_delay_timer,
    after_frozen_toggle, after_player_collision, after_player_input,
    after_update_player_transform, fall_begins, flight_starts, handle_fall_animation,
    handle_fall_reset_delay_timer, handle_fall_sound_delay_timer, handle_frozen_toggle,
    handle_player_collision, handle_player_input, player_has_collision, screen_after_run,
    update_player_transform, PlayerState,
};
use crate::ui::score::{
    after_score, after_score_timer, handle_score, handle_score_timer, points_due, zones_entered,
    ScoreRule,
};
use crate::window::WindowInfo;
use crate::world::{TickEvents, World, WorldView};

pub mod collision;
pub mod course;
pub mod pipes;
pub mod player;

verus! {

/// Factor from sprite pixels to world units.
pub const SPRITE_SCALE: i64 = 4;

/// Pairs of pipes in the field.
pub const PIPE_AMOUNT: usize = 4;

/// Width of a pipe, in sub-units.
pub const PIPE_WIDTH_SCALED: u32 = 72_000_000;

/// Half the width of a pipe, in sub-units.
pub const PIPE_HALF_WIDTH_SCALED: i64 = 36_000_000;

/// Height of a pipe, in sub-units.
pub const PIPE_HEIGHT_SCALED: u32 = 576_000_000;

/// Half the height of a pipe, in sub-units.
pub const PIPE_HALF_HEIGHT_SCALED: i64 = 288_000_000;

/// Half the height of the gap between the pipes of a pair, in sub-units.
pub const PIPE_GAP_SCALED: i64 = 60_000_000;

/// Half the width of the strip in a gap that gives the point for passing it,
/// in sub-units.
pub const SCORE_ZONE_HALF_WIDTH: i64 = 450_000;

/// Width of the player's sprite, in sub-units.
pub const PLAYER_WIDTH_SCALED: i64 = 48_000_000;

/// Height of the player's sprite, in sub-units.
pub const PLAYER_HEIGHT_SCALED: i64 = 32_000_000;

/// Distance from the middle of a gap to the centre of either pipe around it,
/// in sub-units: half a pipe's height and half the gap.
pub const PIPE_VERTICAL_CENTER: i64 = 348_000_000;

/// Bound of the random shift of a gap before scaling, in sub-units: the shift
/// is drawn from `-PIPE_VERTICAL_OFFSET` up to, not including,
/// `PIPE_VERTICAL_OFFSET`.
pub const PIPE_VERTICAL_OFFSET: i64 = 30_000_000;

/// Horizontal distance between neighbouring pairs, in sub-units.
pub const PIPE_SPACING_SCALED: i64 = 240_000_000;

/// Distance a pipe is moved to the right when it has left the field, in
/// sub-units: one spacing for each pair.
pub const PIPE_CYCLE: i64 = 960_000_000;

/// Speed of the pipes toward the left, in units per second.
pub const PIPE_SPEED: u32 = 150;

/// Radius of the circle that stands for the player in collision tests, in
/// sub-units: a quarter of the scaled sprite's width.
pub const PLAYER_COLLISION_RADIUS_FACTORED: u32 = 12_000_000;

/// Velocity a flap gives, in sub-units per second.
pub const PLAYER_FLAP_FORCE: i64 = 500_000_000;

/// Downward pull while the player is in control, in units per second squared.
pub const PLAYING_GRAVITY_STRENGTH: u32 = 1800;

/// Downward pull during the fall that ends a run, in units per second squared.
pub const ANIMATION_GRAVITY_STRENGTH: u32 = 750;

/// Sub-units per second of velocity that tilt the player by one millionth of
/// a degree.
pub const VELOCITY_TO_ROTATION_RATIO: i64 = 13;

/// Largest tilt either way, in millionths of a degree.
pub const MAX_ROTATION: i64 = 90_000_000;

/// Microseconds between a collision and the start of the fall.
pub const FALL_SOUND_DELAY: u64 = 500_000;

/// Microseconds between the start of the fall and the end of the run.
pub const FALL_RESET_DELAY: u64 = 1_750_000;

/// The world with its pipes advanced by a tick.
pub open spec fn after_update_pipe_transforms(
    w: WorldView,
    delta: int,
    y_offset: int,
) -> WorldView {
    WorldView { pipes: pipes_after_tick(w.pipes, w.window, delta, y_offset), ..w }
}

/// The world of a flapping player after the motion of one tick: the player
/// has moved under gravity and the pipes have scrolled. The collision tests
/// look at this world.
pub open spec fn after_motion(w: WorldView, delta: int, y_offset: int) -> WorldView {
    after_update_pipe_transforms(after_update_player_transform(w, delta), delta, y_offset)
}

/// The points that a tick of `delta` microseconds gives a flapping player,
/// by the rule the world scores by.
pub open spec fn points_given(w: WorldView, delta: int) -> int {
    match w.score_rule {
        ScoreRule::ByTime => points_due(w, delta),
        ScoreRule::ByGap => match w.player {
            Some(body) => zones_entered(body, w.pipes),
            None => 0,
        },
    }
}

/// The world after the points of a tick have been given, by the rule the
/// world scores by.
pub open spec fn after_scoring(w: WorldView, delta: int) -> WorldView {
    match w.score_rule {
        ScoreRule::ByTime => after_score_timer(w, delta),
        ScoreRule::ByGap => after_score(w),
    }
}

/// The world after a tick of `delta` microseconds. What the tick does
/// depends on the phase in which it starts, and a tick never acts for more
/// than one phase:
///
/// * waiting to start: a flap starts the flight, and nothing else moves;
/// * flapping: player and pipes move; on a collision the flight ends, and
///   otherwise a flap is taken and points are given, for the time flown or
///   for the gaps entered as the world's rule says;
/// * waiting to fall: the fall delay runs;
/// * falling: the reset delay runs and the player drops.
///
/// `y_offset` is the middle of the gap for pipes that come back in this
/// tick.
pub open spec fn after_tick(
    w: WorldView,
    delta: int,
    flap_pressed: bool,
    y_offset: int,
) -> WorldView {
    match w.player_state {
        PlayerState::WaitingToStart => after_frozen_toggle(w, flap_pressed),
        PlayerState::Flapping => {
            let moved = after_motion(w, delta, y_offset);
            if player_has_collision(moved) {
                after_player_collision(moved)
            } else {
                after_scoring(after_player_input(moved, flap_pressed), delta)
            }
        },
        PlayerState::WaitingToFall => after_fall_sound_delay_timer(w, delta),
        PlayerState::Falling => after_fall_animation(
            after_fall_reset_delay_timer(w, delta),
            delta,
        ),
    }
}

/// What a tick of `delta` microseconds asks of the surroundings.
pub open spec fn tick_events(
    w: WorldView,
    delta: int,
    flap_pressed: bool,
    y_offset: int,
) -> TickEvents {
    match w.player_state {
        PlayerState::WaitingToStart => TickEvents {
            flap_sound: flight_starts(w, flap_pressed),
            ..TickEvents::quiet()
        },
        PlayerState::Flapping => {
            let moved = after_motion(w, delta, y_offset);
            if player_has_collision(moved) {
                TickEvents { smack_sound: true, ..TickEvents::quiet() }
            } else {
                TickEvents {
                    flap_sound: flap_pressed,
                    score_sound: points_given(after_player_input(moved, flap_pressed), delta)
                        > 0,
                    ..TickEvents::quiet()
                }
            }
        },
        PlayerState::WaitingToFall => TickEvents {
            fall_sound: fall_begins(w, delta),
            ..TickEvents::quiet()
        },
        PlayerState::Falling => TickEvents {
            next_app_state: screen_after_run(w, delta),
            ..TickEvents::quiet()
        },
    }
}

/// Advances the world by one tick of `delta` microseconds. `flap_pressed`
/// says whether the flap was pressed since the last tick, and `y_offset` is
/// the middle of the gap for pipes that come back in this tick.
pub fn tick(
    world: &mut World,
    delta: u64,
    flap_pressed: bool,
    y_offset: i64,
) -> (events: TickEvents)
    ensures
        final(world)@ == after_tick(old(world)@, delta as int, flap_pressed, y_offset as int),
        events == tick_events(old(world)@, delta as int, flap_pressed, y_offset as int),
        final(world).pipes.len() == old(world).pipes.len(),
{
    let mut events: TickEvents = TickEvents::none();
    match world.player_state {
        PlayerState::WaitingToStart => {
            events.flap_sound = handle_frozen_toggle(world, flap_pressed);
        },
        PlayerState::Flapping => {
            update_player_transform(world, delta);
            let window: WindowInfo = world.window;
            update_pipe_transforms(&mut world.pipes, &window, delta, y_offset);
            events.smack_sound = handle_player_collision(world);
            if !events.smack_sound {
                events.flap_sound = handle_player_input(world, flap_pressed);
                events.score_sound = match world.score_rule {
                    ScoreRule::ByTime => handle_score_timer(world, delta),
                    ScoreRule::ByGap => handle_score(world),
                };
            }
        },
        PlayerState::WaitingToFall => {
            events.fall_sound = handle_fall_sound_delay_timer(world, delta);
        },
        PlayerState::Falling => {
            events.next_app_state = handle_fall_reset_delay_timer(world, delta);
            handle_fall_animation(world, delta);
        },
    }
    events
}

/// Advances the world by one tick of `delta` microseconds, drawing the
/// middle of the new gap at random if a pipe comes back in this tick.
pub fn tick_random(world: &mut World, delta: u64, flap_pressed: bool) -> (events: TickEvents)
    ensures
        final(world).pipes.len() == old(world).pipes.len(),
        exists|y_offset: i64|
            is_pipe_offset(y_offset as int) && final(world)@ == after_tick(
                old(world)@,
                delta as int,
                flap_pressed,
                y_offset as int,
            ) && events == tick_events(old(world)@, delta as int, flap_pressed, y_offset as int),
{
    let flapping: bool = match world.player_state {
        PlayerState::Flapping => true,
        _ => false,
    };
    let y_offset: i64 = if flapping && pipes_to_reset(&world.pipes, &world.window) {
        let mut rand: ThreadRng = rand::thread_rng();
        generate_pipe_offset(&mut rand)
    } else {
        0
    };
    let events: TickEvents = tick(world, delta, flap_pressed, y_offset);
    assert(is_pipe_offset(y_offset as int) && world@ == after_tick(
        old(world)@,
        delta as int,
        flap_pressed,
        y_offset as int,
    ) && events == tick_events(old(world)@, delta as int, flap_pressed, y_offset as int));
    events
}

} // verus!
