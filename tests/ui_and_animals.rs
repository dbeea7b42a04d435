use farm_sim::animals::{move_animals, wander, Animal, AnimalAction};
use farm_sim::ui::{update_time, TimerDisplay};

#[test]
fn timer_reads_minutes_and_padded_seconds() {
    assert_eq!(
        update_time(300_000_000),
        TimerDisplay { minutes: 5, seconds: 0, zero_pad: true, font_growth: None }
    );
    assert_eq!(
        update_time(125_999_999),
        TimerDisplay { minutes: 2, seconds: 5, zero_pad: true, font_growth: None }
    );
    assert_eq!(
        update_time(42_000_000),
        TimerDisplay { minutes: 0, seconds: 42, zero_pad: false, font_growth: None }
    );
}

#[test]
fn timer_grows_in_the_last_seconds() {
    assert_eq!(update_time(9_500_000).font_growth, Some(2));
    assert_eq!(update_time(0).font_growth, Some(20));
    assert_eq!(update_time(10_000_000).font_growth, None);
}

#[test]
fn animal_waits_for_its_period() {
    let mut sheep = Animal::sheep();
    let a = wander(&mut sheep, 600_000, 100, 3);
    assert_eq!(a, AnimalAction { sets_off: false, turn_radians: None });
    assert_eq!(sheep.time_since_move_us, 600_000);
    wander(&mut sheep, 600_000, 100, 3);
    assert_eq!(sheep.time_since_move_us, 1_200_000);
    let a = wander(&mut sheep, 16_000, 100, 3);
    assert_eq!(a, AnimalAction { sets_off: true, turn_radians: Some(3) });
    assert_eq!(sheep.time_since_move_us, 16_000);
}

#[test]
fn animal_keeps_direction_on_a_low_draw() {
    let mut pig = Animal::pig();
    pig.time_since_move_us = 2_000_001;
    let a = wander(&mut pig, 10, 0, 77);
    assert_eq!(a, AnimalAction { sets_off: true, turn_radians: None });
    assert_eq!(pig.time_since_move_us, 10);
}

#[test]
fn random_wander_turns_within_range() {
    let mut sheep = Animal::sheep();
    sheep.time_since_move_us = u64::MAX;
    let a = move_animals(&mut sheep, 5);
    assert!(a.sets_off);
    if let Some(t) = a.turn_radians {
        assert!(t < 359);
    }
    assert_eq!(sheep.time_since_move_us, 5);
    let a = move_animals(&mut sheep, u64::MAX);
    assert!(!a.sets_off);
    assert_eq!(sheep.time_since_move_us, u64::MAX);
}
