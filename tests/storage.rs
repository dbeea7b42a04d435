use farm_sim::storage::{in_transfer_range, transfer_harvest, CombineStorage, Position, TruckStorage};

fn at(x: i64, z: i64) -> Option<Position> {
    Some(Position { x, y: 1_600, z })
}

#[test]
fn transfer_fills_truck_and_leaves_the_rest() {
    let mut combine = CombineStorage { capacity: 500, contents: 80 };
    let mut truck = TruckStorage { capacity: 100, contents: 30 };
    let moved = transfer_harvest(at(60_000, 0), at(70_000, 0), &mut combine, &mut truck);
    assert_eq!(moved, 70);
    assert_eq!(truck.contents, 100);
    assert_eq!(combine.contents, 10);
    // The truck is full: the next tick moves nothing.
    let moved = transfer_harvest(at(60_000, 0), at(70_000, 0), &mut combine, &mut truck);
    assert_eq!(moved, 0);
    assert_eq!(combine.contents, 10);
}

#[test]
fn transfer_empties_combine_when_truck_has_room() {
    let mut combine = CombineStorage { capacity: 500, contents: 40 };
    let mut truck = TruckStorage { capacity: 1500, contents: 0 };
    assert_eq!(transfer_harvest(at(0, 0), at(3_000, 4_000), &mut combine, &mut truck), 40);
    assert_eq!(combine.contents, 0);
    assert_eq!(truck.contents, 40);
}

#[test]
fn no_transfer_out_of_range_or_without_both_vehicles() {
    let mut combine = CombineStorage { capacity: 500, contents: 80 };
    let mut truck = TruckStorage { capacity: 100, contents: 30 };
    assert_eq!(transfer_harvest(at(0, 0), at(15_000, 0), &mut combine, &mut truck), 0);
    assert_eq!(transfer_harvest(None, at(1_000, 0), &mut combine, &mut truck), 0);
    assert_eq!(transfer_harvest(at(0, 0), None, &mut combine, &mut truck), 0);
    assert_eq!(combine.contents, 80);
    assert_eq!(truck.contents, 30);
}

#[test]
fn transfer_range_is_strict_euclidean() {
    let a = Position { x: 0, y: 0, z: 0 };
    assert!(in_transfer_range(&a, &Position { x: 9_000, y: 0, z: 11_999 }));
    assert!(!in_transfer_range(&a, &Position { x: 9_000, y: 0, z: 12_000 }));
    assert!(!in_transfer_range(&a, &Position { x: i64::MIN, y: 0, z: 0 }));
    assert!(in_transfer_range(&Position { x: i64::MAX, y: 5, z: -7 }, &Position { x: i64::MAX - 14_000, y: 5, z: -7 }));
}
