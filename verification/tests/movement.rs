use camera_movement::keys::{Key, KeySet};
use camera_movement::movement::{accumulate, movement_update, Step, SPEED};
use camera_movement::orientation::{Direction, Orientation};
use camera_movement::vector::Vec3;

/// A camera that looks along the negative z axis, as a camera in its rest pose does.
fn level_camera() -> Orientation {
    Orientation::new(Direction::new(0, 0, -1), Direction::new(-1, 0, 0))
}

fn keys_of(keys: &[Key]) -> KeySet {
    let mut set = KeySet::empty();
    for key in keys {
        set = set.with(*key);
    }
    set
}

/// The displacement that a step stands for, in distance units, as whoever applies the
/// step computes it: the heading brought to unit length, or to zero, times the reach.
fn displacement(step: &Step, ticks_per_second: f64) -> (f64, f64, f64) {
    let (x, y, z) = (step.heading.x as f64, step.heading.y as f64, step.heading.z as f64);
    let length = (x * x + y * y + z * z).sqrt();
    if length == 0.0 {
        return (0.0, 0.0, 0.0);
    }
    let distance = step.reach as f64 / ticks_per_second;
    (x / length * distance, y / length * distance, z / length * distance)
}

fn length(v: (f64, f64, f64)) -> f64 {
    (v.0 * v.0 + v.1 * v.1 + v.2 * v.2).sqrt()
}

#[test]
fn forward_for_a_tenth_of_a_second_moves_half_a_unit() {
    // A thousand ticks to the second.
    let step = movement_update(&level_camera(), &keys_of(&[Key::Forward]), 100);
    assert_eq!(step, Step { heading: Vec3::new(0, 0, -1), reach: 500 });
    assert_eq!(displacement(&step, 1000.0), (0.0, 0.0, -0.5));
    // The player now faces along the heading.
    assert!(step.turns());
}

#[test]
fn forward_and_back_cancel() {
    let step = movement_update(&level_camera(), &keys_of(&[Key::Forward, Key::Back]), 100);
    assert_eq!(step.heading, Vec3::zero());
    assert_eq!(displacement(&step, 1000.0), (0.0, 0.0, 0.0));
    assert!(!step.turns());
}

#[test]
fn left_and_right_cancel() {
    let step = movement_update(&level_camera(), &keys_of(&[Key::Left, Key::Right]), 100);
    assert_eq!(step.heading, Vec3::zero());
    assert_eq!(displacement(&step, 1000.0), (0.0, 0.0, 0.0));
    assert!(!step.turns());
}

#[test]
fn no_key_moves_nothing() {
    let step = movement_update(&level_camera(), &KeySet::empty(), 100);
    assert_eq!(step, Step { heading: Vec3::zero(), reach: 500 });
    assert_eq!(displacement(&step, 1000.0), (0.0, 0.0, 0.0));
    assert!(!step.turns());
}

#[test]
fn all_four_keys_cancel() {
    let keys = keys_of(&[Key::Forward, Key::Left, Key::Right, Key::Back]);
    let camera = Orientation::new(Direction::new(600, -300, -800), Direction::new(-800, 0, -600));
    assert_eq!(accumulate(&keys, &camera), Vec3::zero());
    let step = movement_update(&camera, &keys, 100);
    assert_eq!(step.heading, Vec3::zero());
    assert!(!step.turns());
}

#[test]
fn forward_and_left_move_along_the_diagonal() {
    let camera = Orientation::new(Direction::new(1, 0, 0), Direction::new(0, 0, 1));
    let keys = keys_of(&[Key::Forward, Key::Left]);
    assert_eq!(accumulate(&keys, &camera), Vec3::new(1, 0, 1));
    // One second at a thousand ticks to the second.
    let step = movement_update(&camera, &keys, 1000);
    assert_eq!(step, Step { heading: Vec3::new(1, 0, 1), reach: 5000 });
    assert!(step.turns());

    // The unit vector is (0.707.., 0, 0.707..) and the displacement (3.535.., 0, 3.535..).
    let unit = displacement(&Step { heading: step.heading, reach: 1000 }, 1000.0);
    assert_eq!(((unit.0 * 1000.0).round(), unit.1, (unit.2 * 1000.0).round()), (707.0, 0.0, 707.0));
    let moved = displacement(&step, 1000.0);
    assert_eq!(
        ((moved.0 * 100.0).round(), moved.1, (moved.2 * 100.0).round()),
        (354.0, 0.0, 354.0)
    );
    assert!((length(moved) - 5.0).abs() < 1e-12);
}

#[test]
fn each_single_key_moves_along_its_own_vector() {
    let camera = level_camera();
    let cases = [
        (Key::Forward, Vec3::new(0, 0, -1), (0.0, 0.0, -0.5)),
        (Key::Back, Vec3::new(0, 0, 1), (0.0, 0.0, 0.5)),
        (Key::Left, Vec3::new(-1, 0, 0), (-0.5, 0.0, 0.0)),
        (Key::Right, Vec3::new(1, 0, 0), (0.5, 0.0, 0.0)),
    ];
    for (key, heading, expected) in cases {
        let step = movement_update(&camera, &keys_of(&[key]), 100);
        assert_eq!(step.heading, heading);
        assert_eq!(step.heading, camera.toward(key).flatten());
        assert_eq!(step.reach, 500);
        assert_eq!(displacement(&step, 1000.0), expected);
    }
}

#[test]
fn a_single_key_step_has_the_length_of_speed_times_time() {
    // A camera turned so that its forward vector is (7, 0, -24) / 25.
    let camera = Orientation::new(Direction::new(7, 0, -24), Direction::new(-24, 0, -7));
    let step = movement_update(&camera, &keys_of(&[Key::Forward]), 1);
    assert_eq!(step, Step { heading: Vec3::new(7, 0, -24), reach: 5 });
    // At one tick to the second: five units along (7, 0, -24) / 25.
    let moved = displacement(&step, 1.0);
    assert!((moved.0 - 1.4).abs() < 1e-12);
    assert_eq!(moved.1, 0.0);
    assert!((moved.2 + 4.8).abs() < 1e-12);
    assert!((length(moved) - 5.0).abs() < 1e-12);

    let step = movement_update(&camera, &keys_of(&[Key::Right]), 1);
    assert_eq!(step, Step { heading: Vec3::new(24, 0, 7), reach: 5 });
}

#[test]
fn the_step_is_horizontal_under_a_pitched_camera() {
    // The camera looks down at an angle: forward is (0, -0.6, -0.8).
    let camera = Orientation::new(Direction::new(0, -600, -800), Direction::new(-1000, 0, 0));
    let step = movement_update(&camera, &keys_of(&[Key::Forward]), 100);
    assert_eq!(step, Step { heading: Vec3::new(0, 0, -800), reach: 500 });
    assert!(step.turns());
    // The full speed goes into the horizontal part.
    assert_eq!(displacement(&step, 1000.0), (0.0, 0.0, -0.5));

    let all = [Key::Forward, Key::Left, Key::Right, Key::Back];
    let rolled = Orientation::new(Direction::new(3, -7, 11), Direction::new(-5, 13, 2));
    for mask in 0..16u32 {
        let mut keys = KeySet::empty();
        for (bit, key) in all.iter().enumerate() {
            if mask & (1 << bit) != 0 {
                keys = keys.with(*key);
            }
        }
        assert_eq!(movement_update(&rolled, &keys, 40).heading.y, 0);
    }
}

#[test]
fn a_camera_that_looks_straight_down_gives_no_forward_motion() {
    let camera = Orientation::new(Direction::new(0, -1000, 0), Direction::new(-1000, 0, 0));
    let step = movement_update(&camera, &keys_of(&[Key::Forward]), 100);
    assert_eq!(step.heading, Vec3::zero());
    assert!(!step.turns());
    assert_eq!(displacement(&step, 1000.0), (0.0, 0.0, 0.0));
    // Sideways it still moves.
    let step = movement_update(&camera, &keys_of(&[Key::Left]), 100);
    assert!(step.turns());
    assert_eq!(displacement(&step, 1000.0), (-0.5, 0.0, 0.0));
}

#[test]
fn the_player_turns_exactly_when_the_direction_is_not_zero() {
    let camera = level_camera();
    let all = [Key::Forward, Key::Left, Key::Right, Key::Back];
    for mask in 0..16u32 {
        let mut keys = KeySet::empty();
        for (bit, key) in all.iter().enumerate() {
            if mask & (1 << bit) != 0 {
                keys = keys.with(*key);
            }
        }
        let direction = accumulate(&keys, &camera).flatten();
        let step = movement_update(&camera, &keys, 40);
        assert_eq!(step.heading, direction);
        assert_eq!(step.reach, 200);
        assert_eq!(step.turns(), !direction.is_zero());
        let cancelled = keys.pressed(Key::Forward) == keys.pressed(Key::Back)
            && keys.pressed(Key::Left) == keys.pressed(Key::Right);
        assert_eq!(step.turns(), !cancelled);
    }
}

#[test]
fn zero_elapsed_time_turns_without_moving() {
    let step = movement_update(&level_camera(), &keys_of(&[Key::Back]), 0);
    assert_eq!(step, Step { heading: Vec3::new(0, 0, 1), reach: 0 });
    assert!(step.turns());
    assert_eq!(displacement(&step, 1000.0), (0.0, 0.0, 0.0));
}

#[test]
fn accumulate_sums_the_held_keys() {
    let camera = Orientation::new(Direction::new(3, 5, -4), Direction::new(-4, 1, -3));
    assert_eq!(accumulate(&KeySet::empty(), &camera), Vec3::zero());
    assert_eq!(accumulate(&keys_of(&[Key::Forward]), &camera), Vec3::new(3, 5, -4));
    assert_eq!(accumulate(&keys_of(&[Key::Left]), &camera), Vec3::new(-4, 1, -3));
    assert_eq!(accumulate(&keys_of(&[Key::Right]), &camera), Vec3::new(4, -1, 3));
    assert_eq!(accumulate(&keys_of(&[Key::Back]), &camera), Vec3::new(-3, -5, 4));
    assert_eq!(
        accumulate(&keys_of(&[Key::Forward, Key::Left]), &camera),
        Vec3::new(-1, 6, -7)
    );
    assert_eq!(
        accumulate(&keys_of(&[Key::Back, Key::Right]), &camera),
        Vec3::new(1, -6, 7)
    );
    assert_eq!(
        accumulate(&keys_of(&[Key::Forward, Key::Left, Key::Right]), &camera),
        Vec3::new(3, 5, -4)
    );
}

#[test]
fn the_largest_inputs_are_computed_without_overflow() {
    let low = Direction::new(i32::MIN, i32::MIN, i32::MIN);
    let high = Direction::new(i32::MAX, i32::MAX, i32::MAX);
    let wide = i32::MIN as i64;
    let camera = Orientation::new(low, low);
    assert_eq!(
        accumulate(&keys_of(&[Key::Forward, Key::Left]), &camera),
        Vec3::new(2 * wide, 2 * wide, 2 * wide)
    );
    assert_eq!(
        accumulate(&keys_of(&[Key::Back, Key::Right]), &camera),
        Vec3::new(-2 * wide, -2 * wide, -2 * wide)
    );
    let camera = Orientation::new(high, low);
    assert_eq!(
        accumulate(&keys_of(&[Key::Forward, Key::Right]), &camera),
        Vec3::new(i32::MAX as i64 - wide, i32::MAX as i64 - wide, i32::MAX as i64 - wide)
    );
    let step = movement_update(&camera, &keys_of(&[Key::Forward, Key::Right]), u64::MAX);
    assert_eq!(step.heading, Vec3::new(4_294_967_295, 0, 4_294_967_295));
    assert_eq!(step.reach, 92_233_720_368_547_758_075);
    assert_eq!(step.reach, SPEED as u128 * u64::MAX as u128);
}

#[test]
fn the_speed_is_five_units_per_tick() {
    assert_eq!(SPEED, 5);
    assert_eq!(movement_update(&level_camera(), &KeySet::empty(), 1).reach, 5);
    assert_eq!(movement_update(&level_camera(), &KeySet::empty(), 16_666_667).reach, 83_333_335);
}
