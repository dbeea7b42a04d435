use farm_sim::vehicles::{
    angle_between, direction_heading, move_combine, move_truck, requested_direction,
    update_vehicle, Combine, DriveKeys, Motion, Truck, Vehicle,
};

fn combine_vehicle() -> Vehicle {
    Combine::new().vehicle
}

#[test]
fn keys_give_compass_directions() {
    let w = DriveKeys { forward: true, left: false, back: false, right: false };
    assert_eq!(requested_direction(&w), (0, 1));
    let (x, z) = requested_direction(&w);
    assert_eq!(direction_heading(x, z), Some(90_000));
    let wa = DriveKeys { forward: true, left: true, back: false, right: false };
    let (x, z) = requested_direction(&wa);
    assert_eq!(direction_heading(x, z), Some(45_000));
    let sd = DriveKeys { forward: false, left: false, back: true, right: true };
    let (x, z) = requested_direction(&sd);
    assert_eq!((x, z), (-1, -1));
    assert_eq!(direction_heading(x, z), Some(225_000));
    let cancel = DriveKeys { forward: true, left: false, back: true, right: false };
    let (x, z) = requested_direction(&cancel);
    assert_eq!(direction_heading(x, z), None);
}

#[test]
fn angle_between_wraps_to_half_turn() {
    assert_eq!(angle_between(90_000, 0), -90_000);
    assert_eq!(angle_between(0, 90_000), 90_000);
    assert_eq!(angle_between(350_000, 10_000), 20_000);
    assert_eq!(angle_between(10_000, 350_000), -20_000);
    assert_eq!(angle_between(0, 180_000), 180_000);
    assert_eq!(angle_between(180_000, 0), 180_000);
}

#[test]
fn forward_drive_accelerates_and_turns_towards_request() {
    let v = combine_vehicle();
    let mut m = Motion { heading: 0, speed: 3_000 };
    let turn = update_vehicle(&v, Some(90_000), &mut m, 100_000);
    // 20 units/s^2 over 0.1 s adds 2 units/s; the turn is limited to
    // 229.183 degrees/s over 0.1 s.
    assert_eq!(turn, -22_918);
    assert_eq!(m.heading, 22_918);
    assert_eq!(m.speed, 5_000);
}

#[test]
fn forward_speed_clamps_at_drive_speed() {
    let v = combine_vehicle();
    let mut m = Motion { heading: 90_000, speed: 9_500 };
    let turn = update_vehicle(&v, Some(90_000), &mut m, 100_000);
    assert_eq!(turn, 0);
    assert_eq!(m.speed, 10_000);
    assert_eq!(m.heading, 90_000);
}

#[test]
fn opposite_request_reverses_without_spinning() {
    let v = combine_vehicle();
    let mut m = Motion { heading: 270_000, speed: 0 };
    let turn = update_vehicle(&v, Some(90_000), &mut m, 100_000);
    assert_eq!(turn, 0);
    assert_eq!(m.heading, 270_000);
    assert_eq!(m.speed, -2_000);
    let mut m = Motion { heading: 270_000, speed: -4_000 };
    update_vehicle(&v, Some(90_000), &mut m, 100_000);
    assert_eq!(m.speed, -5_000);
}

#[test]
fn reverse_turn_folds_by_half_turn() {
    let v = combine_vehicle();
    // Request 150 degrees away: reverse, backing 30 degrees round.
    let mut m = Motion { heading: 0, speed: 0 };
    let turn = update_vehicle(&v, Some(150_000), &mut m, 100_000);
    assert_eq!(turn, 22_918);
    assert_eq!(m.heading, 337_082);
    assert_eq!(m.speed, -2_000);
}

#[test]
fn speed_stays_in_range_for_every_request() {
    let v = combine_vehicle();
    let requests = [None, Some(0), Some(45_000), Some(90_000), Some(180_000), Some(270_000)];
    for speed in [-5_000i64, -1, 0, 1, 7_000, 10_000] {
        for heading in [0u32, 90_000, 200_000, 359_999] {
            for r in requests {
                let mut m = Motion { heading, speed };
                update_vehicle(&v, r, &mut m, 250_000);
                assert!(m.speed >= -5_000 && m.speed <= 10_000);
                assert!(m.heading < 360_000);
            }
        }
    }
}

#[test]
fn coasting_decays_to_exactly_zero() {
    let v = combine_vehicle();
    let mut m = Motion { heading: 12_345, speed: 9_000 };
    let mut last = m.speed;
    for _ in 0..10 {
        let turn = update_vehicle(&v, None, &mut m, 100_000);
        assert_eq!(turn, 0);
        assert!(m.speed >= 0 && m.speed <= last);
        last = m.speed;
    }
    assert_eq!(m.speed, 0);
    assert_eq!(m.heading, 12_345);
}

#[test]
fn coasting_in_reverse_never_flips_sign() {
    let v = combine_vehicle();
    let mut m = Motion { heading: 0, speed: -4_500 };
    update_vehicle(&v, None, &mut m, 100_000);
    assert_eq!(m.speed, -2_500);
    update_vehicle(&v, None, &mut m, 100_000);
    assert_eq!(m.speed, -500);
    update_vehicle(&v, None, &mut m, 100_000);
    assert_eq!(m.speed, 0);
    update_vehicle(&v, None, &mut m, 100_000);
    assert_eq!(m.speed, 0);
}

#[test]
fn move_combine_and_truck_use_their_tuning() {
    let keys = DriveKeys { forward: true, left: false, back: false, right: false };
    let mut m = Motion { heading: 90_000, speed: 0 };
    move_combine(&Combine::new(), &keys, &mut m, 100_000);
    assert_eq!(m.speed, 2_000);
    let mut m = Motion { heading: 90_000, speed: 0 };
    move_truck(&Truck::new(), &keys, &mut m, 100_000);
    assert_eq!(m.speed, 4_000);
    let none = DriveKeys::default();
    move_truck(&Truck::new(), &none, &mut m, 50_000);
    assert_eq!(m.speed, 2_000);
}
