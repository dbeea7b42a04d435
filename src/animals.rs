use vstd::prelude::*;
use crate::random::random_degrees;

verus! {

/// A wandering farm animal.
///
/// Every `move_period_us` microseconds it sets off again at `move_speed`
/// (thousandths of a unit per second). When it sets off, a first draw in
/// `[0, 359)` above `direction_change_chance` makes it turn, by a second
/// draw in radians.
#[derive(Clone, Copy, Debug, PartialEq, Eq, Structural, Default)]
pub struct Animal {
    pub move_speed: u32,
    pub move_period_us: u64,
    /// Jump height, in thousandths of a unit.
    pub jump_height: u32,
    pub direction_change_chance: u32,
    pub time_since_move_us: u64,
}

/// What an animal does this tick: whether it sets off, and the turn it
/// makes first, in whole radians.
#[derive(Clone, Copy, Debug, PartialEq, Eq, Structural)]
pub struct AnimalAction {
    pub sets_off: bool,
    pub turn_radians: Option<u32>,
}

impl Animal {
    /// A sheep: brisk and restless.
    pub fn sheep() -> (a: Animal)
        ensures
            a == (Animal {
                move_speed: 3_000,
                move_period_us: 1_000_000,
                jump_height: 500,
                direction_change_chance: 0,
                time_since_move_us: 0,
            }),
    {
        Animal {
            move_speed: 3_000,
            move_period_us: 1_000_000,
            jump_height: 500,
            direction_change_chance: 0,
            time_since_move_us: 0,
        }
    }

    /// A pig: slower and calmer.
    pub fn pig() -> (a: Animal)
        ensures
            a == (Animal {
                move_speed: 2_000,
                move_period_us: 2_000_000,
                jump_height: 250,
                direction_change_chance: 0,
                time_since_move_us: 0,
            }),
    {
        Animal {
            move_speed: 2_000,
            move_period_us: 2_000_000,
            jump_height: 250,
            direction_change_chance: 0,
            time_since_move_us: 0,
        }
    }

    /// The animal is due to set off.
    pub open spec fn due(self) -> bool {
        self.time_since_move_us > self.move_period_us
    }
}

/// Time since setting off, carried over a tick of `dt` microseconds; it
/// stops at the largest value it can hold.
pub open spec fn time_carried(since: nat, dt: nat) -> u64 {
    if since + dt <= u64::MAX { (since + dt) as u64 } else { u64::MAX }
}

/// One tick of an animal, given the two draws it may use: `change_draw`
/// decides whether it turns and `turn_draw` is the turn.
pub fn wander(animal: &mut Animal, dt_us: u64, change_draw: u32, turn_draw: u32) -> (action: AnimalAction)
    ensures
        action.sets_off == old(animal).due(),
        action.turn_radians == (if old(animal).due() && change_draw > old(animal).direction_change_chance {
            Some(turn_draw)
        } else {
            None
        }),
        final(animal).time_since_move_us == time_carried(
            if old(animal).due() { 0 } else { old(animal).time_since_move_us as nat },
            dt_us as nat,
        ),
        final(animal).move_speed == old(animal).move_speed,
        final(animal).move_period_us == old(animal).move_period_us,
        final(animal).jump_height == old(animal).jump_height,
        final(animal).direction_change_chance == old(animal).direction_change_chance,
{
    let mut action = AnimalAction { sets_off: false, turn_radians: None };
    if animal.time_since_move_us > animal.move_period_us {
        if change_draw > animal.direction_change_chance {
            action.turn_radians = Some(turn_draw);
        }
        action.sets_off = true;
        animal.time_since_move_us = 0;
    }
    animal.time_since_move_us = animal.time_since_move_us.saturating_add(dt_us);
    action
}

/// One tick of an animal, drawing at random whether and how far it turns
/// when it sets off.
pub fn move_animals(animal: &mut Animal, dt_us: u64) -> (action: AnimalAction)
    ensures
        action.sets_off == old(animal).due(),
        !old(animal).due() ==> action.turn_radians is None,
        action.turn_radians matches Some(t) ==> t < 359,
        final(animal).time_since_move_us == time_carried(
            if old(animal).due() { 0 } else { old(animal).time_since_move_us as nat },
            dt_us as nat,
        ),
        final(animal).move_speed == old(animal).move_speed,
        final(animal).move_period_us == old(animal).move_period_us,
        final(animal).jump_height == old(animal).jump_height,
        final(animal).direction_change_chance == old(animal).direction_change_chance,
{
    if animal.time_since_move_us > animal.move_period_us {
        let change_draw = random_degrees();
        let turn_draw = if change_draw > animal.direction_change_chance { random_degrees() } else { 0 };
        wander(animal, dt_us, change_draw, turn_draw)
    } else {
        wander(animal, dt_us, 0, 0)
    }
}

} // verus!
