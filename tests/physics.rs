use rust_game::entity::{Player, Position, HEIGHT, PLAYER_HEIGHT, PLAYER_WIDTH, WIDTH};
use rust_game::fixed::{saturate, saturate_i32, to_units, wide_mul, SUBUNITS};
use rust_game::physics::{elapsed_time, HeldKeys};

const FLOOR: i64 = (HEIGHT - PLAYER_HEIGHT) as i64 * SUBUNITS;

fn keys(left: bool, right: bool, up: bool) -> HeldKeys {
    HeldKeys { left, right, up }
}

fn player_at(x: i64, y: i64) -> Player {
    Player::new(Position { x, y }, 1, 1000, 600, 600)
}

#[test]
fn first_frame_lands_on_floor() {
    let mut p = player_at(0, 0);
    p.update(1000, HeldKeys::none());
    assert_eq!(p.position().y, 484_000);
    assert_eq!(p.position().y, FLOOR);
    assert!(p.is_touching_ground());
    // landing on the floor stops the fall
    assert_eq!(p.velocity().y, 0);
    assert_eq!(p.rect().y, 484);
    assert_eq!(p.rect().height, 116);
}

#[test]
fn free_fall_comes_to_rest_and_stays() {
    let mut p = Player::spawn();
    let mut frames = 0;
    while !p.is_touching_ground() {
        p.update(16, HeldKeys::none());
        frames += 1;
        assert!(frames < 10_000);
    }
    assert_eq!(p.position().y, FLOOR);
    for _ in 0..200 {
        p.update(16, HeldKeys::none());
        assert!(p.is_touching_ground());
        assert_eq!(p.position().y, FLOOR);
        assert_eq!(p.velocity().y, 0);
    }
}

#[test]
fn zero_time_frame_changes_no_motion() {
    let mut p = player_at(100_000, 50_000);
    p.entity.velocity.y = 300;
    let before = p;
    p.update(0, keys(true, true, true));
    assert_eq!(p.position(), before.position());
    assert_eq!(p.velocity(), before.velocity());
    assert!(!p.is_touching_ground());

    let mut q = player_at(100_000, FLOOR);
    q.update(0, HeldKeys::none());
    assert_eq!(q.position().y, FLOOR);
    assert!(q.is_touching_ground());
}

#[test]
fn zero_time_frame_still_clears_horizontal_speed() {
    let mut p = player_at(100_000, 0);
    p.entity.velocity.x = 5;
    p.update(0, HeldKeys::none());
    assert_eq!(p.velocity().x, 0);
}

#[test]
fn right_wins_over_left() {
    let mut both = player_at(100_000, 0);
    both.update(2, keys(true, true, false));
    let mut right = player_at(100_000, 0);
    right.update(2, keys(false, true, false));
    assert_eq!(both.velocity().x, 600 * 2 * 2);
    assert_eq!(both.velocity().x, right.velocity().x);
    assert!(both.entity.textured_game_object.flip_horizontal);
    // left's displacement was still applied before right's
    assert_eq!(both.position().x, 100_000 + 600 * 2 * 2 * 2);
}

#[test]
fn left_faces_left_and_moves() {
    let mut p = player_at(400_000, 0);
    p.entity.textured_game_object.flip_horizontal = true;
    p.update(2, keys(true, false, false));
    assert_eq!(p.velocity().x, -600 * 2 * 2);
    assert_eq!(p.position().x, 400_000 - 600 * 2 - 600 * 2 * 2 * 2);
    assert!(!p.entity.textured_game_object.flip_horizontal);
}

#[test]
fn jump_only_from_ground() {
    let mut air = player_at(100_000, 0);
    air.entity.velocity.y = 40;
    let mut air_no_up = air;
    air.update(10, keys(false, false, true));
    air_no_up.update(10, HeldKeys::none());
    assert_eq!(air, air_no_up);
    assert_eq!(air.velocity().y, 40 + 10);

    let mut ground = player_at(100_000, FLOOR);
    ground.update(10, HeldKeys::none());
    assert!(ground.is_touching_ground());
    ground.update(10, keys(false, false, true));
    assert_eq!(ground.velocity().y, -600 * 10 + 10);
    assert_eq!(ground.position().y, FLOOR + (-600 * 10 + 10) * 10);
    assert!(!ground.is_touching_ground());
}

#[test]
fn jump_method_needs_ground() {
    let mut p = player_at(0, 0);
    p.jump(5);
    assert_eq!(p.velocity().y, 0);
    p.entity.is_touching_ground = true;
    p.jump(5);
    assert_eq!(p.velocity().y, -3000);
}

#[test]
fn move_methods_set_velocity_and_position() {
    let mut p = player_at(0, 0);
    p.move_right(3);
    assert_eq!(p.velocity().x, 1800);
    assert_eq!(p.position().x, 1800);
    assert!(p.entity.textured_game_object.flip_horizontal);
    p.move_left(2);
    assert_eq!(p.velocity().x, -1200);
    assert_eq!(p.position().x, 600);
    assert!(!p.entity.textured_game_object.flip_horizontal);
}

#[test]
fn wraps_exactly_at_right_edge() {
    let mut p = player_at((WIDTH as i64 - 1) * SUBUNITS, 0);
    p.entity.velocity.x = 1000;
    p.update(1, HeldKeys::none());
    assert_eq!(p.position().x, -(PLAYER_WIDTH as i64) * SUBUNITS);
    assert_eq!(p.rect().x, -56);
}

#[test]
fn wraps_at_left_edge() {
    let mut p = player_at(-55_000, 0);
    p.entity.velocity.x = -1000;
    p.update(1, HeldKeys::none());
    assert_eq!(p.position().x, WIDTH as i64 * SUBUNITS);
    assert_eq!(p.rect().x, 800);
}

#[test]
fn gravity_overshoots_then_clamps() {
    let mut p = player_at(0, -10_000_000);
    p.entity.velocity.y = 1000;
    p.update(10, HeldKeys::none());
    assert_eq!(p.velocity().y, 1010);
    p.update(10, HeldKeys::none());
    assert_eq!(p.velocity().y, 1000);
}

#[test]
fn horizontal_speed_compounds_and_saturates() {
    let mut p = player_at(0, 0);
    p.entity.velocity.x = 1;
    p.update(1000, HeldKeys::none());
    assert_eq!(p.velocity().x, 1000);
    for _ in 0..10 {
        p.update(1000, HeldKeys::none());
    }
    assert_eq!(p.velocity().x, i64::MAX);
}

#[test]
fn spawn_is_centred_at_top() {
    let p = Player::spawn();
    assert_eq!(p.position(), Position { x: 372_000, y: 0 });
    assert_eq!(p.rect().x, 372);
    assert_eq!(p.rect().y, 0);
    assert_eq!(p.rect().width, 56);
    assert_eq!(p.rect().height, 116);
    assert!(!p.is_touching_ground());
}

#[test]
fn rect_rounds_half_away_from_zero() {
    assert_eq!(to_units(1500), 2);
    assert_eq!(to_units(1499), 1);
    assert_eq!(to_units(-1500), -2);
    assert_eq!(to_units(-1499), -1);
    assert_eq!(to_units(0), 0);
    assert_eq!(to_units(i64::MAX), i32::MAX);
    assert_eq!(to_units(i64::MIN), i32::MIN);
}

#[test]
fn saturating_helpers() {
    assert_eq!(wide_mul(i64::MIN, i64::MIN), 1i128 << 126);
    assert_eq!(wide_mul(-7, 6), -42);
    assert_eq!(saturate(1i128 << 100), i64::MAX);
    assert_eq!(saturate(-(1i128 << 100)), i64::MIN);
    assert_eq!(saturate(-5), -5);
    assert_eq!(saturate_i32(1 << 40), i32::MAX);
    assert_eq!(saturate_i32(-3), -3);
}

#[test]
fn elapsed_time_between_ticks() {
    assert_eq!(elapsed_time(100, 116), 16);
    assert_eq!(elapsed_time(200, 100), -100);
    assert_eq!(elapsed_time(0, u32::MAX), i32::MAX);
    assert_eq!(elapsed_time(u32::MAX, 0), i32::MIN);
}
