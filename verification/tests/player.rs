use flappy_bird::gameplay::player::{
    apply_player_animation_gravity, apply_player_gravity, apply_player_rotation, Player,
};
use flappy_bird::gameplay::{
    ANIMATION_GRAVITY_STRENGTH, MAX_ROTATION, PLAYER_FLAP_FORCE, PLAYING_GRAVITY_STRENGTH,
};

const TICK: u64 = 15_625;

#[test]
fn new_player_rests_at_origin() {
    let player = Player::new();
    assert_eq!(player, Player { x: 0, y: 0, velocity: 0, rotation: 0 });
}

#[test]
fn flap_sets_velocity() {
    let mut player = Player::new();
    player.flap(PLAYER_FLAP_FORCE);
    assert_eq!(player.velocity, 500_000_000);
}

#[test]
fn flap_overwrites_any_velocity() {
    let mut rising = Player { x: 0, y: 0, velocity: 123_456_789, rotation: 0 };
    let mut falling = Player { x: 0, y: 0, velocity: -987_654_321, rotation: 0 };
    rising.flap(PLAYER_FLAP_FORCE);
    falling.flap(PLAYER_FLAP_FORCE);
    assert_eq!(rising.velocity, PLAYER_FLAP_FORCE);
    assert_eq!(falling.velocity, PLAYER_FLAP_FORCE);
}

#[test]
fn flap_twice_is_flap_once() {
    let mut once = Player { x: 3, y: 4, velocity: -5, rotation: 6 };
    let mut twice = once;
    once.flap(PLAYER_FLAP_FORCE);
    twice.flap(PLAYER_FLAP_FORCE);
    twice.flap(PLAYER_FLAP_FORCE);
    assert_eq!(once, twice);
}

#[test]
fn gravity_lowers_velocity_then_moves() {
    let mut player = Player { x: 0, y: 0, velocity: 500_000_000, rotation: 0 };
    apply_player_gravity(&mut player, TICK);
    // 1800 units/s^2 over 15625 us take 28.125 units/s off the velocity
    assert_eq!(player.velocity, 471_875_000);
    // 471.875 units/s over 15625 us cover 7.373046875 units, rounded toward zero
    assert_eq!(player.y, 7_373_046);
    assert_eq!(player.x, 0);
    assert_eq!(player.rotation, 0);
}

#[test]
fn animation_gravity_is_weaker() {
    let mut player = Player { x: 0, y: 0, velocity: 0, rotation: 0 };
    apply_player_animation_gravity(&mut player, TICK);
    assert_eq!(player.velocity, -11_718_750);
    // -11.71875 units/s over 15625 us cover -0.18310546875 units, rounded toward zero
    assert_eq!(player.y, -183_105);
    assert!(ANIMATION_GRAVITY_STRENGTH < PLAYING_GRAVITY_STRENGTH);
}

#[test]
fn downward_travel_rounds_toward_zero() {
    let mut player = Player { x: 0, y: 0, velocity: 1, rotation: 0 };
    // velocity becomes 1 - 1800 = -1799 sub-units/s; over 1 us that is less than a sub-unit
    player.pull(1, 1800);
    assert_eq!(player.velocity, -1799);
    assert_eq!(player.y, 0);
}

#[test]
fn zero_delta_moves_nothing() {
    let mut player = Player { x: 1, y: 2, velocity: 300_000_000, rotation: 0 };
    player.pull(0, PLAYING_GRAVITY_STRENGTH);
    assert_eq!(player, Player { x: 1, y: 2, velocity: 300_000_000, rotation: 0 });
}

#[test]
fn rotation_is_velocity_over_ratio() {
    let mut player = Player { x: 0, y: 0, velocity: 500_000_000, rotation: 0 };
    apply_player_rotation(&mut player);
    // 500 / 13 = 38.461538... degrees, rounded toward zero
    assert_eq!(player.rotation, 38_461_538);
    player.velocity = -500_000_000;
    apply_player_rotation(&mut player);
    assert_eq!(player.rotation, -38_461_538);
}

#[test]
fn rotation_is_clamped_to_a_quarter_turn() {
    let mut player = Player { x: 0, y: 0, velocity: 1_170_000_000, rotation: 0 };
    apply_player_rotation(&mut player);
    assert_eq!(player.rotation, MAX_ROTATION);
    player.velocity = 1_170_000_013;
    apply_player_rotation(&mut player);
    assert_eq!(player.rotation, MAX_ROTATION);
    player.velocity = 1_169_999_987;
    apply_player_rotation(&mut player);
    assert_eq!(player.rotation, 89_999_999);
    player.velocity = -5_000_000_000;
    apply_player_rotation(&mut player);
    assert_eq!(player.rotation, -MAX_ROTATION);
    player.velocity = i64::MIN;
    apply_player_rotation(&mut player);
    assert_eq!(player.rotation, -MAX_ROTATION);
    player.velocity = i64::MAX;
    apply_player_rotation(&mut player);
    assert_eq!(player.rotation, MAX_ROTATION);
}

#[test]
fn integrate_sets_rotation_from_new_velocity() {
    let mut player = Player { x: 0, y: 0, velocity: 500_000_000, rotation: 0 };
    player.integrate(TICK, PLAYING_GRAVITY_STRENGTH);
    assert_eq!(player.velocity, 471_875_000);
    assert_eq!(player.y, 7_373_046);
    assert_eq!(player.rotation, 471_875_000 / 13);
    assert_eq!(player.rotation, 36_298_076);
}

#[test]
fn integrate_keeps_rotation_in_range_for_many_velocities() {
    let velocities: [i64; 9] = [
        i64::MIN,
        -2_000_000_000,
        -1_170_000_000,
        -13,
        0,
        12,
        1_170_000_000,
        2_000_000_000,
        i64::MAX,
    ];
    let deltas: [u64; 4] = [0, 1, TICK, u64::MAX];
    for velocity in velocities {
        for delta in deltas {
            let mut player = Player { x: 0, y: 0, velocity, rotation: 0 };
            player.integrate(delta, PLAYING_GRAVITY_STRENGTH);
            assert!(-MAX_ROTATION <= player.rotation && player.rotation <= MAX_ROTATION);
            let expected = (player.velocity / 13).clamp(-MAX_ROTATION, MAX_ROTATION);
            assert_eq!(player.rotation, expected);
        }
    }
}

#[test]
fn velocity_and_height_stop_at_the_ends_of_the_range() {
    let mut player = Player { x: 0, y: i64::MIN + 5, velocity: i64::MIN + 10, rotation: 0 };
    player.pull(1_000_000, 1800);
    assert_eq!(player.velocity, i64::MIN);
    assert_eq!(player.y, i64::MIN);
    let mut riser = Player { x: 0, y: i64::MAX - 5, velocity: i64::MAX, rotation: 0 };
    riser.pull(1_000_000, 0);
    assert_eq!(riser.velocity, i64::MAX);
    assert_eq!(riser.y, i64::MAX);
}

#[test]
fn velocity_falls_linearly_over_many_ticks() {
    let mut player = Player { x: 0, y: 0, velocity: PLAYER_FLAP_FORCE, rotation: 0 };
    for _ in 0..64 {
        apply_player_gravity(&mut player, TICK);
    }
    // one second at 1800 units/s^2
    assert_eq!(player.velocity, 500_000_000 - 1_800_000_000);
}
