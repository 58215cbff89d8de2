use flappy_bird::app::{AppPlugin, AppState};
use flappy_bird::gameplay::pipes::{Direction, Pipe};
use flappy_bird::gameplay::player::{
    handle_fall_animation, handle_fall_reset_delay_timer, handle_fall_sound_delay_timer,
    handle_frozen_toggle, handle_player_collision, handle_player_input, update_player_transform,
    FallDelayTimer, Player, PlayerState, ResetDelayTimer,
};
use flappy_bird::gameplay::{tick, tick_random, PIPE_CYCLE, PLAYER_FLAP_FORCE};
use flappy_bird::timer::{Timer, TimerMode};
use flappy_bird::ui::score::{Score, ScoreDisplay, ScoreRule, ScoreTimer};
use flappy_bird::world::{TickEvents, World};
use flappy_bird::units::UNIT;

const TICK: u64 = 15_625;

const QUIET: TickEvents = TickEvents {
    flap_sound: false,
    smack_sound: false,
    fall_sound: false,
    score_sound: false,
    next_app_state: None,
};

fn run_ready() -> World {
    let mut world = AppPlugin.build();
    AppPlugin.transition(&mut world, AppState::MainMenu, &[0, 0, 0, 0]);
    AppPlugin.transition(&mut world, AppState::Playing, &[0, 0, 0, 0]);
    world
}

fn in_flight() -> World {
    let mut world = run_ready();
    let events = tick(&mut world, TICK, true, 0);
    assert!(events.flap_sound);
    world
}

#[test]
fn nothing_moves_before_the_first_flap() {
    let mut world = run_ready();
    let before = world.clone();
    for _ in 0..100 {
        let events = tick(&mut world, TICK, false, 5);
        assert_eq!(events, QUIET);
    }
    assert_eq!(world, before);
    assert_eq!(world.player_state, PlayerState::WaitingToStart);
}

#[test]
fn first_flap_starts_the_flight() {
    let mut world = run_ready();
    let events = tick(&mut world, TICK, true, 0);
    assert_eq!(events, TickEvents { flap_sound: true, ..QUIET });
    assert_eq!(world.player_state, PlayerState::Flapping);
    assert_eq!(world.score_timer, Some(ScoreTimer::new()));
    assert_eq!(
        world.player,
        Some(Player { x: 0, y: 0, velocity: PLAYER_FLAP_FORCE, rotation: 0 })
    );
    // the starting tick itself moves neither player nor pipes
    assert_eq!(world.pipes, run_ready().pipes);
    assert_eq!(world.score, Score(0));
}

#[test]
fn frozen_toggle_acts_only_while_waiting_to_start() {
    for state in [PlayerState::Flapping, PlayerState::WaitingToFall, PlayerState::Falling] {
        let mut world = run_ready();
        world.player_state = state;
        let before = world.clone();
        assert!(!handle_frozen_toggle(&mut world, true));
        assert_eq!(world, before);
    }
    let mut world = run_ready();
    assert!(!handle_frozen_toggle(&mut world, false));
    assert_eq!(world, run_ready());
    assert!(handle_frozen_toggle(&mut world, true));
    assert_eq!(world.player_state, PlayerState::Flapping);
}

#[test]
fn frozen_toggle_without_a_player_still_starts() {
    let mut world = AppPlugin.build();
    assert!(handle_frozen_toggle(&mut world, true));
    assert_eq!(world.player_state, PlayerState::Flapping);
    assert_eq!(world.player, None);
    assert_eq!(world.score_timer, Some(ScoreTimer::new()));
}

#[test]
fn flight_follows_closed_form_integration() {
    let mut world = in_flight();
    let ticks = 16;
    for step in 1..=ticks {
        let events = tick(&mut world, TICK, false, 0);
        assert_eq!(events, QUIET);
        let player = world.player.unwrap();
        // velocity = 500 - 1800 t
        assert_eq!(player.velocity, 500_000_000 - 28_125_000 * step);
    }
    let player = world.player.unwrap();
    assert_eq!(player.velocity, 50_000_000);
    assert_eq!(world.player_state, PlayerState::Flapping);
    // height after n steps of length h: n v0 h - g h^2 n (n + 1) / 2
    let h = 1.0 / 64.0;
    let n = ticks as f64;
    let expected = n * 500.0 * h - 1800.0 * h * h * n * (n + 1.0) / 2.0;
    let height = player.y as f64 / 1e6;
    assert!((height - expected).abs() < 1e-4, "{} differs from {}", height, expected);
    assert!((expected - 65.234375).abs() < 1e-9);
    // and within the step error of the continuous motion 500 t - 900 t^2
    let t = n * h;
    let continuous = 500.0 * t - 900.0 * t * t;
    assert!((height - continuous).abs() < 1800.0 * h * t);
    // the pipes have scrolled 150 units/s for a quarter of a second
    assert_eq!(world.pipes[0].x, 256 * UNIT - 37_500_000);
    assert_eq!(world.pipes.len(), 8);
}

#[test]
fn flap_in_flight_sets_velocity_after_the_motion() {
    let mut world = in_flight();
    tick(&mut world, TICK, false, 0);
    tick(&mut world, TICK, false, 0);
    let before = world.player.unwrap();
    let events = tick(&mut world, TICK, true, 0);
    assert_eq!(events, TickEvents { flap_sound: true, ..QUIET });
    let player = world.player.unwrap();
    assert_eq!(player.velocity, PLAYER_FLAP_FORCE);
    let mut moved = before;
    moved.integrate(TICK, 1800);
    assert_eq!(player.y, moved.y);
    assert_eq!(player.rotation, moved.rotation);
    assert_eq!(world.player_state, PlayerState::Flapping);
}

#[test]
fn player_input_without_a_press_changes_nothing() {
    let mut world = in_flight();
    let before = world.clone();
    assert!(!handle_player_input(&mut world, false));
    assert_eq!(world, before);
    world.player = Some(Player { x: 0, y: 5, velocity: -9, rotation: 0 });
    assert!(handle_player_input(&mut world, true));
    assert_eq!(world.player.unwrap().velocity, PLAYER_FLAP_FORCE);
    world.player = None;
    assert!(handle_player_input(&mut world, true));
    assert_eq!(world.player, None);
}

#[test]
fn update_player_transform_uses_playing_gravity() {
    let mut world = in_flight();
    update_player_transform(&mut world, TICK);
    let mut expected = Player { x: 0, y: 0, velocity: PLAYER_FLAP_FORCE, rotation: 0 };
    expected.integrate(TICK, 1800);
    assert_eq!(world.player, Some(expected));
    world.player = None;
    update_player_transform(&mut world, TICK);
    assert_eq!(world.player, None);
}

#[test]
fn fall_animation_uses_animation_gravity() {
    let mut world = in_flight();
    handle_fall_animation(&mut world, TICK);
    let mut expected = Player { x: 0, y: 0, velocity: PLAYER_FLAP_FORCE, rotation: 0 };
    expected.integrate(TICK, 750);
    assert_eq!(world.player, Some(expected));
}

#[test]
fn falling_out_of_the_field_ends_the_flight() {
    let mut world = in_flight();
    let mut smacks = 0;
    let mut ticks = 0;
    while world.player_state == PlayerState::Flapping {
        let events = tick(&mut world, TICK, false, 0);
        if events.smack_sound {
            smacks += 1;
        }
        ticks += 1;
        assert!(ticks < 1000);
    }
    assert_eq!(smacks, 1);
    assert_eq!(world.player_state, PlayerState::WaitingToFall);
    let player = world.player.unwrap();
    assert!(player.y <= -256 * UNIT);
    assert_eq!(player.velocity, 0);
    assert_eq!(world.fall_delay_timer, Some(FallDelayTimer::new()));
    assert_eq!(world.score_timer, None);
}

#[test]
fn rising_out_of_the_field_ends_the_flight() {
    let mut world = in_flight();
    let mut ticks = 0;
    while world.player_state == PlayerState::Flapping {
        tick(&mut world, TICK, true, 0);
        ticks += 1;
        assert!(ticks < 1000);
    }
    assert_eq!(world.player_state, PlayerState::WaitingToFall);
    assert!(world.player.unwrap().y >= 256 * UNIT);
    // the flap of the colliding tick is not taken
    assert_eq!(world.player.unwrap().velocity, 0);
}

#[test]
fn collision_tick_reports_only_the_impact() {
    let mut world = in_flight();
    world.player = Some(Player { x: 0, y: 255 * UNIT, velocity: 500 * UNIT, rotation: 0 });
    world.score_timer = Some(ScoreTimer(Timer {
        duration: 1_600_000,
        elapsed: 1_599_999,
        mode: TimerMode::Repeating,
        finished: false,
        times_finished_this_tick: 0,
    }));
    let events = tick(&mut world, TICK, true, 0);
    assert_eq!(events, TickEvents { smack_sound: true, ..QUIET });
    assert_eq!(world.score, Score(0));
    assert_eq!(world.player_state, PlayerState::WaitingToFall);
}

#[test]
fn hitting_a_pipe_ends_the_flight() {
    let mut world = in_flight();
    world.pipes[0] = Pipe { x: 40 * UNIT, y: 290 * UNIT, direction: Direction::Up, scored: false };
    world.player = Some(Player { x: 0, y: 0, velocity: 0, rotation: 0 });
    // the pipe spans x in [4, 76] and y from 2 up; the player at the origin overlaps it
    let mut probe = world.clone();
    assert!(handle_player_collision(&mut probe));
    let events = tick(&mut world, TICK, false, 0);
    assert_eq!(events, TickEvents { smack_sound: true, ..QUIET });
    assert_eq!(world.player_state, PlayerState::WaitingToFall);
}

#[test]
fn collision_handler_without_contact_changes_nothing() {
    let mut world = in_flight();
    let before = world.clone();
    assert!(!handle_player_collision(&mut world));
    assert_eq!(world, before);
    world.player = None;
    assert!(!handle_player_collision(&mut world));
}

#[test]
fn collision_is_not_taken_again_while_overlapping() {
    let mut world = in_flight();
    world.player = Some(Player { x: 0, y: 300 * UNIT, velocity: 0, rotation: 0 });
    let first = tick(&mut world, TICK, false, 0);
    assert!(first.smack_sound);
    let mut fall_sounds = 0;
    let mut run_overs = 0;
    for _ in 0..400 {
        let events = tick(&mut world, TICK, true, 0);
        assert!(!events.smack_sound);
        assert!(!events.flap_sound);
        assert!(!events.score_sound);
        assert_ne!(world.player_state, PlayerState::Flapping);
        assert_ne!(world.player_state, PlayerState::WaitingToStart);
        if events.fall_sound {
            fall_sounds += 1;
        }
        if events.next_app_state.is_some() {
            run_overs += 1;
        }
    }
    assert_eq!(fall_sounds, 1);
    assert_eq!(run_overs, 1);
    assert_eq!(world.score, Score(0));
}

#[test]
fn fall_begins_only_after_the_delay() {
    let mut world = in_flight();
    world.player = Some(Player { x: 0, y: 300 * UNIT, velocity: 0, rotation: 0 });
    tick(&mut world, TICK, false, 0);
    assert_eq!(world.player_state, PlayerState::WaitingToFall);
    let frozen = world.player;
    // 31 ticks are 484375 us: still short of half a second
    for _ in 0..31 {
        let events = tick(&mut world, TICK, false, 0);
        assert_eq!(events, QUIET);
        assert_eq!(world.player_state, PlayerState::WaitingToFall);
        assert_eq!(world.player, frozen);
    }
    assert_eq!(world.fall_delay_timer.unwrap().0.elapsed, 484_375);
    let events = tick(&mut world, TICK, false, 0);
    assert_eq!(events, TickEvents { fall_sound: true, ..QUIET });
    assert_eq!(world.player_state, PlayerState::Falling);
    assert_eq!(world.fall_delay_timer, None);
    assert_eq!(world.reset_delay_timer, Some(ResetDelayTimer::new()));
    assert_eq!(world.player, frozen);
}

#[test]
fn fall_delay_ends_exactly_at_its_duration() {
    let mut world = in_flight();
    world.player_state = PlayerState::WaitingToFall;
    world.fall_delay_timer = Some(FallDelayTimer::new());
    assert!(!handle_fall_sound_delay_timer(&mut world, 499_999));
    assert_eq!(world.player_state, PlayerState::WaitingToFall);
    assert!(handle_fall_sound_delay_timer(&mut world, 1));
    assert_eq!(world.player_state, PlayerState::Falling);
    assert!(!handle_fall_sound_delay_timer(&mut world, 1_000_000));
}

#[test]
fn run_ends_after_the_reset_delay() {
    let mut world = in_flight();
    world.player = Some(Player { x: 0, y: 0, velocity: 0, rotation: 0 });
    world.player_state = PlayerState::Falling;
    world.reset_delay_timer = Some(ResetDelayTimer::new());
    let pipes = world.pipes.clone();
    // 111 ticks are 1734375 us, 112 ticks are 1.75 s
    for _ in 0..111 {
        let events = tick(&mut world, TICK, false, 0);
        assert_eq!(events, QUIET);
    }
    let events = tick(&mut world, TICK, true, 0);
    assert_eq!(events, TickEvents { next_app_state: Some(AppState::RetryMenu), ..QUIET });
    assert_eq!(world.reset_delay_timer, None);
    assert_eq!(world.player_state, PlayerState::Falling);
    assert_eq!(world.app_state, AppState::Playing);
    // the player has dropped under the weaker gravity for 1.75 s; the pipes stood still
    let player = world.player.unwrap();
    assert_eq!(player.velocity, -1_312_500_000);
    assert_eq!(player.rotation, -90_000_000);
    assert_eq!(world.pipes, pipes);
    // after the end the player goes on dropping and nothing more is asked for
    let events = tick(&mut world, TICK, false, 0);
    assert_eq!(events, QUIET);
    assert!(world.player.unwrap().y < player.y);
}

#[test]
fn reset_delay_handler_without_a_timer_does_nothing() {
    let mut world = in_flight();
    let before = world.clone();
    assert_eq!(handle_fall_reset_delay_timer(&mut world, u64::MAX), None);
    assert_eq!(world, before);
    world.reset_delay_timer = Some(ResetDelayTimer::new());
    assert_eq!(handle_fall_reset_delay_timer(&mut world, 1_749_999), None);
    assert_eq!(handle_fall_reset_delay_timer(&mut world, 1), Some(AppState::RetryMenu));
    assert_eq!(world.reset_delay_timer, None);
}

#[test]
fn score_grows_by_one_each_interval_of_flight() {
    let mut world = in_flight();
    world.window.half_height = u32::MAX;
    world.pipes.clear();
    let mut sounds = 0;
    // 1024 ticks are 16 s; the interval is 1.6 s
    for step in 1..=1024u64 {
        let events = tick(&mut world, TICK, step % 40 == 0, 0);
        if events.score_sound {
            sounds += 1;
        }
        assert_eq!(world.score, Score(((step * TICK) / 1_600_000) as u32));
        assert_eq!(world.player_state, PlayerState::Flapping);
    }
    assert_eq!(world.score, Score(10));
    assert_eq!(sounds, 10);
    assert_eq!(world.score_display, Some(ScoreDisplay { value: 10 }));
}

#[test]
fn long_tick_gives_every_point_it_covers() {
    let mut world = in_flight();
    world.window.half_height = u32::MAX;
    world.pipes.clear();
    // over five seconds a player would drop out of any field, so there is none
    world.player = None;
    let events = tick(&mut world, 5_000_000, false, 0);
    assert!(events.score_sound);
    assert_eq!(world.score, Score(3));
    assert_eq!(world.score_timer.unwrap().0.elapsed, 200_000);
}

#[test]
fn score_stands_still_outside_the_flight() {
    for state in [PlayerState::WaitingToStart, PlayerState::WaitingToFall, PlayerState::Falling] {
        let mut world = run_ready();
        world.player_state = state;
        world.score = Score(7);
        world.score_timer = Some(ScoreTimer::new());
        world.fall_delay_timer = Some(FallDelayTimer::new());
        world.reset_delay_timer = Some(ResetDelayTimer::new());
        for _ in 0..20 {
            let events = tick(&mut world, 1_000_000, false, 0);
            assert!(!events.score_sound);
            assert_eq!(world.score, Score(7));
        }
    }
}

#[test]
fn tick_keeps_the_number_of_pipes() {
    let mut world = in_flight();
    world.window.half_height = u32::MAX;
    for step in 0..3000 {
        tick(&mut world, TICK, step % 30 == 0, (step % 5) * UNIT);
        assert_eq!(world.pipes.len(), 8);
    }
}

#[test]
fn pipes_come_back_during_flight() {
    let mut world = in_flight();
    world.window.half_height = u32::MAX;
    world.player = Some(Player { x: 0, y: 2_000 * UNIT, velocity: 0, rotation: 0 });
    world.pipes[0].x = -293 * UNIT;
    world.pipes[1].x = -293 * UNIT;
    let events = tick(&mut world, TICK, false, 24 * UNIT);
    assert_eq!(events, QUIET);
    assert_eq!(world.pipes[0].x, -293 * UNIT + PIPE_CYCLE - 2_343_750);
    assert_eq!(world.pipes[0].y, 372 * UNIT);
    assert_eq!(world.pipes[1].y, -324 * UNIT);
    assert!(world.pipes[0].x >= 256 * UNIT);
}

#[test]
fn random_tick_matches_the_plain_tick_when_no_pipe_is_out() {
    let mut plain = in_flight();
    let mut drawn = plain.clone();
    for step in 0..50 {
        let expected = tick(&mut plain, TICK, step % 9 == 0, 0);
        let events = tick_random(&mut drawn, TICK, step % 9 == 0);
        assert_eq!(events, expected);
        assert_eq!(drawn, plain);
    }
}

#[test]
fn random_tick_draws_the_gap_of_returning_pipes() {
    let mut world = in_flight();
    world.window.half_height = u32::MAX;
    world.player = Some(Player { x: 0, y: 2_000 * UNIT, velocity: 0, rotation: 0 });
    world.pipes[2].x = -400 * UNIT;
    world.pipes[3].x = -400 * UNIT;
    tick_random(&mut world, TICK, false);
    assert_eq!(world.pipes.len(), 8);
    assert_eq!(world.pipes[2].y - world.pipes[3].y, 696 * UNIT);
    let offset = world.pipes[2].y - 348 * UNIT;
    assert!(-120 * UNIT <= offset && offset < 120 * UNIT);
    assert_eq!(offset % 4, 0);
}

#[test]
fn gap_rule_scores_on_entering_the_strip() {
    let mut world = run_ready();
    world.score_rule = ScoreRule::ByGap;
    let events = tick(&mut world, TICK, true, 0);
    assert!(events.flap_sound);
    assert_eq!(world.score_timer, None);
    world.window.half_height = u32::MAX;
    // a pair whose gap is around the origin, just right of the player's reach
    world.pipes.clear();
    let x = 49 * UNIT;
    world.pipes.push(Pipe { x, y: 348 * UNIT, direction: Direction::Up, scored: false });
    world.pipes.push(Pipe { x, y: -348 * UNIT, direction: Direction::Down, scored: false });
    world.player = Some(Player { x: 0, y: -20 * UNIT, velocity: 0, rotation: 0 });
    // the first tick scrolls the strip into the player's reach
    let events = tick(&mut world, TICK, false, 0);
    assert_eq!(events, TickEvents { score_sound: true, ..QUIET });
    for _ in 0..3 {
        let events = tick(&mut world, TICK, false, 0);
        assert_eq!(events, QUIET);
        assert_eq!(world.player_state, PlayerState::Flapping);
    }
    assert_eq!(world.score, Score(1));
    assert_eq!(world.score_display, Some(ScoreDisplay { value: 1 }));
    assert!(world.pipes[1].scored);
    assert!(!world.pipes[0].scored);
}

#[test]
fn timers_fit_the_phase_throughout_a_run() {
    let mut world = run_ready();
    let mut seen = Vec::new();
    for step in 0..400u64 {
        tick(&mut world, 1 + (step * 7_919) % 40_000, step >= 3 && step % 17 == 3, 0);
        match world.player_state {
            PlayerState::WaitingToStart => {}
            PlayerState::Flapping => {
                let timer = world.score_timer.unwrap().0;
                assert_eq!(timer.mode, TimerMode::Repeating);
                assert_eq!(timer.duration, 1_600_000);
                assert!(timer.elapsed < timer.duration);
            }
            PlayerState::WaitingToFall => {
                let timer = world.fall_delay_timer.unwrap().0;
                assert_eq!(timer.mode, TimerMode::Once);
                assert_eq!(timer.duration, 500_000);
                assert!(timer.elapsed < timer.duration && !timer.finished);
                assert_eq!(world.score_timer, None);
            }
            PlayerState::Falling => {
                assert_eq!(world.fall_delay_timer, None);
                if let Some(timer) = world.reset_delay_timer {
                    assert_eq!(timer.0.duration, 1_750_000);
                    assert!(timer.0.elapsed < timer.0.duration && !timer.0.finished);
                }
            }
        }
        if seen.last() != Some(&world.player_state) {
            seen.push(world.player_state);
        }
    }
    assert_eq!(
        seen,
        vec![
            PlayerState::WaitingToStart,
            PlayerState::Flapping,
            PlayerState::WaitingToFall,
            PlayerState::Falling
        ]
    );
}
