use flappy_bird::gameplay::pipes::{
    despawn_pipes, generate_pipe_offset, pipes_to_reset, place_pipe, spawn_pipes,
    spawn_pipes_random, update_pipe_transforms, update_pipe_transforms_random, Direction, Pipe,
};
use flappy_bird::gameplay::{
    PIPE_AMOUNT, PIPE_CYCLE, PIPE_HALF_WIDTH_SCALED, PIPE_SPACING_SCALED, PIPE_VERTICAL_CENTER,
    PIPE_VERTICAL_OFFSET, PIPE_WIDTH_SCALED, SPRITE_SCALE,
};
use flappy_bird::window::WindowInfo;
use flappy_bird::units::UNIT;

const TICK: u64 = 15_625;

fn pipe(x: i64, y: i64, direction: Direction) -> Pipe {
    Pipe { x, y, direction, scored: false }
}

#[test]
fn constants_fit_together() {
    assert_eq!(PIPE_CYCLE, PIPE_AMOUNT as i64 * PIPE_SPACING_SCALED);
    assert_eq!(2 * PIPE_HALF_WIDTH_SCALED, PIPE_WIDTH_SCALED as i64);
    assert_eq!(PIPE_SPACING_SCALED, 60 * SPRITE_SCALE * UNIT);
    assert_eq!(PIPE_VERTICAL_CENTER, (144 / 2 + 15) * SPRITE_SCALE * UNIT);
    assert_eq!(PIPE_VERTICAL_OFFSET, 30 * UNIT);
}

#[test]
fn new_pipe_has_not_scored() {
    assert_eq!(Pipe::new(1, 2, Direction::Down), pipe(1, 2, Direction::Down));
}

#[test]
fn place_pipe_puts_the_gap_around_the_offset() {
    assert_eq!(place_pipe(Direction::Up, 0), 348 * UNIT);
    assert_eq!(place_pipe(Direction::Down, 0), -348 * UNIT);
    assert_eq!(place_pipe(Direction::Up, -120 * UNIT), 228 * UNIT);
    assert_eq!(place_pipe(Direction::Down, 100 * UNIT), -248 * UNIT);
    assert_eq!(place_pipe(Direction::Up, i64::MAX), i64::MAX);
    assert_eq!(place_pipe(Direction::Down, i64::MIN), i64::MIN);
}

#[test]
fn spawn_places_pairs_left_to_right_from_the_right_edge() {
    let window = WindowInfo::new();
    let offsets: [i64; 4] = [0, 10 * UNIT, -20 * UNIT, 119 * UNIT];
    let pipes = spawn_pipes(&window, &offsets);
    assert_eq!(pipes.len(), 8);
    let expected = vec![
        pipe(256 * UNIT, 348 * UNIT, Direction::Up),
        pipe(256 * UNIT, -348 * UNIT, Direction::Down),
        pipe(496 * UNIT, 358 * UNIT, Direction::Up),
        pipe(496 * UNIT, -338 * UNIT, Direction::Down),
        pipe(736 * UNIT, 328 * UNIT, Direction::Up),
        pipe(736 * UNIT, -368 * UNIT, Direction::Down),
        pipe(976 * UNIT, 467 * UNIT, Direction::Up),
        pipe(976 * UNIT, -229 * UNIT, Direction::Down),
    ];
    assert_eq!(pipes, expected);
}

#[test]
fn spawn_follows_the_width_of_the_field() {
    let window = WindowInfo { half_width: 7, half_height: 1 };
    let pipes = spawn_pipes(&window, &[0, 0, 0, 0]);
    assert_eq!(pipes[0].x, 7);
    assert_eq!(pipes[7].x, 7 + 3 * PIPE_SPACING_SCALED);
}

#[test]
fn pipes_scroll_left_at_pipe_speed() {
    let window = WindowInfo::new();
    let mut pipes = spawn_pipes(&window, &[0, 0, 0, 0]);
    let before = pipes.clone();
    update_pipe_transforms(&mut pipes, &window, TICK, 77);
    assert_eq!(pipes.len(), 8);
    for (now, then) in pipes.iter().zip(before.iter()) {
        // 150 units/s over 15625 us are 2.34375 units
        assert_eq!(now.x, then.x - 2_343_750);
        assert_eq!(now.y, then.y);
        assert_eq!(now.direction, then.direction);
    }
}

#[test]
fn zero_delta_leaves_pipes_in_the_field_alone() {
    let window = WindowInfo::new();
    let mut pipes = spawn_pipes(&window, &[1, 2, 3, 4]);
    let before = pipes.clone();
    update_pipe_transforms(&mut pipes, &window, 0, 5);
    assert_eq!(pipes, before);
}

#[test]
fn pipe_is_out_when_its_right_edge_has_left_the_field() {
    let window = WindowInfo::new();
    let edge = -256 * UNIT - PIPE_HALF_WIDTH_SCALED;
    assert!(!pipes_to_reset(&vec![pipe(edge, 0, Direction::Up)], &window));
    assert!(pipes_to_reset(&vec![pipe(edge - 1, 0, Direction::Up)], &window));
    assert!(pipes_to_reset(
        &vec![pipe(0, 0, Direction::Up), pipe(edge - 1, 0, Direction::Down)],
        &window
    ));
    assert!(!pipes_to_reset(&Vec::new(), &window));
}

#[test]
fn pipe_that_left_comes_back_one_cycle_ahead() {
    let window = WindowInfo::new();
    let gone = -293 * UNIT;
    let mut pipes = vec![
        pipe(gone, 300 * UNIT, Direction::Up),
        pipe(gone, -396 * UNIT, Direction::Down),
        pipe(-53 * UNIT, 350 * UNIT, Direction::Up),
        pipe(-53 * UNIT, -346 * UNIT, Direction::Down),
    ];
    pipes[1].scored = true;
    pipes[3].scored = true;
    update_pipe_transforms(&mut pipes, &window, TICK, 40 * UNIT);
    assert_eq!(pipes.len(), 4);
    // -293 + 960 - 2.34375
    assert_eq!(pipes[0], pipe(664_656_250, 388 * UNIT, Direction::Up));
    assert_eq!(pipes[1], pipe(664_656_250, -308 * UNIT, Direction::Down));
    assert!(pipes[0].x >= 256 * UNIT);
    assert_eq!(pipes[0].y - pipes[1].y, 2 * PIPE_VERTICAL_CENTER);
    // the pair still in the field keeps its gap and its mark
    assert_eq!(pipes[2], pipe(-55_343_750, 350 * UNIT, Direction::Up));
    assert_eq!(
        pipes[3],
        Pipe { x: -55_343_750, y: -346 * UNIT, direction: Direction::Down, scored: true }
    );
}

#[test]
fn pipe_that_crosses_during_a_tick_comes_back_in_the_next() {
    let window = WindowInfo::new();
    let mut pipes = vec![pipe(-291 * UNIT, 5, Direction::Up)];
    update_pipe_transforms(&mut pipes, &window, TICK, 9);
    assert_eq!(pipes[0], pipe(-293_343_750, 5, Direction::Up));
    update_pipe_transforms(&mut pipes, &window, TICK, 9);
    assert_eq!(pipes[0].x, -293_343_750 + PIPE_CYCLE - 2_343_750);
    assert_eq!(pipes[0].y, PIPE_VERTICAL_CENTER + 9);
}

#[test]
fn pipe_far_behind_does_not_reach_the_right_edge() {
    let window = WindowInfo::new();
    let mut pipes = vec![pipe(-1000 * UNIT, 0, Direction::Down)];
    update_pipe_transforms(&mut pipes, &window, 0, 0);
    assert_eq!(pipes[0].x, -40 * UNIT);
    assert!(pipes[0].x < 256 * UNIT);
}

#[test]
fn pipe_positions_stop_at_the_ends_of_the_range() {
    let window = WindowInfo::new();
    let mut pipes = vec![pipe(i64::MIN, 0, Direction::Up), pipe(i64::MAX, 3, Direction::Down)];
    update_pipe_transforms(&mut pipes, &window, u64::MAX, i64::MAX);
    assert_eq!(pipes[0].x, i64::MIN);
    assert_eq!(pipes[0].y, i64::MAX);
    assert_eq!(pipes[1].x, i64::MIN);
    assert_eq!(pipes[1].y, 3);
}

#[test]
fn pipe_count_is_kept_over_many_ticks() {
    let window = WindowInfo::new();
    let mut pipes = spawn_pipes(&window, &[0, 40 * UNIT, -40 * UNIT, 80 * UNIT]);
    for step in 0..2000 {
        update_pipe_transforms(&mut pipes, &window, TICK, (step % 7) * UNIT);
        assert_eq!(pipes.len(), 2 * PIPE_AMOUNT);
    }
    // after 31.25 s every pipe has come back several times and is in reach of the field
    for pipe in pipes.iter() {
        assert!(pipe.x >= -293 * UNIT - 2_343_750);
        assert!(pipe.x <= 976 * UNIT);
    }
}

#[test]
fn despawn_removes_every_pipe() {
    let mut pipes = spawn_pipes(&WindowInfo::new(), &[0, 0, 0, 0]);
    despawn_pipes(&mut pipes);
    assert!(pipes.is_empty());
}

#[test]
fn drawn_offsets_are_scaled_and_in_range() {
    let mut rand = rand::thread_rng();
    let bound = PIPE_VERTICAL_OFFSET * SPRITE_SCALE;
    let mut lowest = i64::MAX;
    let mut highest = i64::MIN;
    for _ in 0..2000 {
        let offset = generate_pipe_offset(&mut rand);
        assert!(-bound <= offset && offset < bound);
        assert_eq!(offset % SPRITE_SCALE, 0);
        lowest = lowest.min(offset);
        highest = highest.max(offset);
    }
    // a draw that always gave back one of its bounds would not spread
    assert!(lowest < -bound / 2);
    assert!(highest > bound / 2);
}

#[test]
fn random_spawn_builds_pairs_around_drawn_gaps() {
    let window = WindowInfo::new();
    let pipes = spawn_pipes_random(&window);
    assert_eq!(pipes.len(), 8);
    let bound = PIPE_VERTICAL_OFFSET * SPRITE_SCALE;
    for pair in 0..4 {
        let upper = pipes[2 * pair];
        let lower = pipes[2 * pair + 1];
        assert_eq!(upper.direction, Direction::Up);
        assert_eq!(lower.direction, Direction::Down);
        assert_eq!(upper.x, 256 * UNIT + PIPE_SPACING_SCALED * pair as i64);
        assert_eq!(lower.x, upper.x);
        assert_eq!(upper.y - lower.y, 2 * PIPE_VERTICAL_CENTER);
        let offset = upper.y - PIPE_VERTICAL_CENTER;
        assert!(-bound <= offset && offset < bound);
        assert_eq!(offset % SPRITE_SCALE, 0);
    }
}

#[test]
fn random_update_shares_one_gap_among_the_pipes_that_come_back() {
    let window = WindowInfo::new();
    let bound = PIPE_VERTICAL_OFFSET * SPRITE_SCALE;
    let mut pipes = vec![
        pipe(-300 * UNIT, 0, Direction::Up),
        pipe(-300 * UNIT, 0, Direction::Down),
        pipe(0, 11, Direction::Up),
    ];
    update_pipe_transforms_random(&mut pipes, &window, TICK);
    assert_eq!(pipes.len(), 3);
    assert_eq!(pipes[0].x, -300 * UNIT + PIPE_CYCLE - 2_343_750);
    assert_eq!(pipes[0].y - pipes[1].y, 2 * PIPE_VERTICAL_CENTER);
    let offset = pipes[0].y - PIPE_VERTICAL_CENTER;
    assert!(-bound <= offset && offset < bound);
    assert_eq!(pipes[2], pipe(-2_343_750, 11, Direction::Up));
}

#[test]
fn random_update_without_a_pipe_out_only_scrolls() {
    let window = WindowInfo::new();
    let mut pipes = spawn_pipes(&window, &[4, 8, 12, 16]);
    let mut expected = pipes.clone();
    update_pipe_transforms(&mut expected, &window, TICK, 0);
    update_pipe_transforms_random(&mut pipes, &window, TICK);
    assert_eq!(pipes, expected);
}
