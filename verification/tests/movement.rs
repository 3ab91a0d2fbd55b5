use farmfun::motion::{plan_step, Direction, Travel};
use farmfun::player::{character_movement, InputSnapshot, Player, PLAYER_SPEED};

const SECOND: u64 = 1_000_000_000;

fn keys(up: bool, down: bool, left: bool, right: bool) -> InputSnapshot {
    InputSnapshot { up, down, left, right, spawn: false }
}

#[test]
fn player_starts_at_speed_one_hundred() {
    assert_eq!(PLAYER_SPEED, 100);
    assert_eq!(Player::new(), Player { speed: 100 });
}

#[test]
fn no_key_no_step() {
    let player = Player::new();
    for delta in [0u64, 1, 16_666_667, SECOND, u64::MAX] {
        assert_eq!(character_movement(&player, &keys(false, false, false, false), delta), None);
    }
}

#[test]
fn spawn_key_alone_moves_nothing() {
    let player = Player::new();
    let input = InputSnapshot { up: false, down: false, left: false, right: false, spawn: true };
    assert_eq!(character_movement(&player, &input, SECOND), None);
}

#[test]
fn each_key_points_along_its_axis() {
    assert_eq!(keys(true, false, false, false).direction(), Direction { x: 0, y: 1 });
    assert_eq!(keys(false, true, false, false).direction(), Direction { x: 0, y: -1 });
    assert_eq!(keys(false, false, true, false).direction(), Direction { x: -1, y: 0 });
    assert_eq!(keys(false, false, false, true).direction(), Direction { x: 1, y: 0 });
}

#[test]
fn keys_add_up_and_opposites_cancel() {
    assert_eq!(keys(true, false, false, true).direction(), Direction { x: 1, y: 1 });
    assert_eq!(keys(false, true, true, false).direction(), Direction { x: -1, y: -1 });
    assert_eq!(keys(true, true, false, false).direction(), Direction { x: 0, y: 0 });
    assert_eq!(keys(true, true, false, true).direction(), Direction { x: 1, y: 0 });
    assert_eq!(keys(true, true, true, true).direction(), Direction { x: 0, y: 0 });
}

#[test]
fn step_is_speed_times_time() {
    let player = Player::new();
    let step = character_movement(&player, &keys(true, false, false, false), SECOND);
    assert_eq!(
        step,
        Some(Travel { direction: Direction { x: 0, y: 1 }, distance: 100_000_000_000 })
    );
    let step = character_movement(&player, &keys(false, false, true, false), 16_000_000);
    assert_eq!(
        step,
        Some(Travel { direction: Direction { x: -1, y: 0 }, distance: 1_600_000_000 })
    );
}

#[test]
fn diagonal_step_is_no_longer_than_a_straight_one() {
    let player = Player { speed: 70 };
    let straight = character_movement(&player, &keys(false, false, false, true), 250_000_000);
    let diagonal = character_movement(&player, &keys(false, true, false, true), 250_000_000);
    let straight = straight.expect("a key is held");
    let diagonal = diagonal.expect("two keys are held");
    assert_eq!(straight.distance, 17_500_000_000);
    assert_eq!(diagonal.distance, 17_500_000_000);
    assert_eq!(diagonal.direction, Direction { x: 1, y: -1 });
}

#[test]
fn every_key_combination_keeps_to_speed_times_time() {
    let player = Player { speed: 100 };
    let delta: u64 = 20_000_000;
    let full: u128 = 2_000_000_000;
    for bits in 0u8..16 {
        let input = keys(bits & 1 != 0, bits & 2 != 0, bits & 4 != 0, bits & 8 != 0);
        let step = character_movement(&player, &input, delta);
        let length = step.map_or(0, |travel| travel.distance);
        assert!(length <= full);
        let cancelled = input.direction().is_zero();
        assert_eq!(step.is_some(), !cancelled);
        assert_eq!(length == full, !cancelled);
        if bits == 0 {
            assert!(step.is_none());
        }
    }
}

#[test]
fn cancelled_keys_give_no_step() {
    let player = Player::new();
    assert_eq!(character_movement(&player, &keys(true, true, false, false), SECOND), None);
    assert_eq!(character_movement(&player, &keys(false, false, true, true), SECOND), None);
    assert_eq!(character_movement(&player, &keys(true, true, true, true), SECOND), None);
}

#[test]
fn frame_without_time_gives_a_step_of_no_length() {
    let player = Player::new();
    let step = character_movement(&player, &keys(true, false, false, false), 0);
    assert_eq!(step, Some(Travel { direction: Direction { x: 0, y: 1 }, distance: 0 }));
}

#[test]
fn largest_speed_and_time_fit() {
    let player = Player { speed: u32::MAX };
    let step = character_movement(&player, &keys(false, false, false, true), u64::MAX);
    let step = step.expect("a key is held");
    assert_eq!(step.distance, (u32::MAX as u128) * (u64::MAX as u128));
}

#[test]
fn step_does_not_depend_on_the_length_of_the_direction() {
    let short = plan_step(Direction { x: 1, y: 0 }, 50, SECOND).expect("not at rest");
    let long = plan_step(Direction { x: 4_000_000, y: 0 }, 50, SECOND).expect("not at rest");
    assert_eq!(short.distance, 50_000_000_000);
    assert_eq!(long.distance, 50_000_000_000);
    assert_eq!(plan_step(Direction::zero(), 50, SECOND), None);
    assert_eq!(plan_step(Direction { x: 0, y: 0 }, 50, SECOND), None);
}
