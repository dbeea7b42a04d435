use vstd::prelude::*;
use crate::collision::{
    combine_collision_check, harvested_events, squashed_events, truck_collision_check,
    CollisionEvent, CropEvent,
};
use crate::drop_zone::{
    deposit_events, drop_zone_accept, drop_zone_update, lemma_deposit_total, DropZone,
    OverlapKind,
};
use crate::game::{
    countdown_timer, time_after, total_amount, update_score, Game, GameState, ScoreChangeEvent,
};
use crate::harvest::{crop_events_handler, harvest_fold, squash_fold, Crops};
use crate::storage::{
    transfer_amount, transfer_harvest, within_transfer_range, CombineStorage, Position,
    TruckStorage,
};

verus! {

/// What the combine can hold.
pub const COMBINE_CAPACITY: u32 = 500;

/// What the truck can hold.
pub const TRUCK_CAPACITY: u32 = 1500;

/// Everything a session owns: score and clock, phase, both stores, the
/// standing crops and the drop zone.
pub struct Session {
    pub game: Game,
    pub state: GameState,
    pub combine_store: CombineStorage,
    pub truck_store: TruckStorage,
    pub crops: Crops,
    pub zone: DropZone,
}

/// What the world reports for one tick, after the vehicles have moved and
/// the physics has run.
pub struct TickInput {
    pub collisions: Vec<CollisionEvent>,
    pub combine_at: Option<Position>,
    pub truck_at: Option<Position>,
    pub zone_overlaps: Vec<OverlapKind>,
    pub deposit_pressed: bool,
    pub dt_us: u64,
}

/// What one tick did: crops removed (and how), crop moved to the truck,
/// score credited, and whether the session ended.
pub struct TickReport {
    pub removed: Vec<CropEvent>,
    pub moved: u32,
    pub deposits: Vec<ScoreChangeEvent>,
    pub ended: bool,
}

/// Room for the score to take two full deposits without overflow.
pub open spec fn score_has_room(score: u64) -> bool {
    score + 2 * (u32::MAX as int) <= u64::MAX
}

/// Amount moved to the truck by the transfer step.
pub open spec fn transfer_of(
    combine_at: Option<Position>,
    truck_at: Option<Position>,
    combine: CombineStorage,
    truck: TruckStorage,
) -> int {
    match (combine_at, truck_at) {
        (Some(c), Some(t)) => if within_transfer_range(c, t) {
            transfer_amount(combine, truck)
        } else {
            0
        },
        _ => 0,
    }
}

impl Session {
    /// Both stores hold no more than their capacity.
    pub open spec fn wf(&self) -> bool {
        self.combine_store.wf() && self.truck_store.wf()
    }

    /// A fresh session: playing, full clock, empty stores, no crops yet.
    pub fn new() -> (s: Session)
        ensures
            s.wf(),
            s.state == GameState::Playing,
            s.game == Game::new_spec(),
            s.combine_store == (CombineStorage { capacity: COMBINE_CAPACITY, contents: 0 }),
            s.truck_store == (TruckStorage { capacity: TRUCK_CAPACITY, contents: 0 }),
            s.crops@ == Map::<u64, crate::harvest::Crop>::empty(),
            !s.zone.combine_in_zone,
            !s.zone.truck_in_zone,
    {
        Session {
            game: Game::new(),
            state: GameState::Playing,
            combine_store: CombineStorage::new(COMBINE_CAPACITY),
            truck_store: TruckStorage::new(TRUCK_CAPACITY),
            crops: Crops::new(),
            zone: DropZone::new(),
        }
    }

    /// Runs one tick. Once the session is over nothing changes. While
    /// playing, the tick's collisions are classified, squashed and harvested
    /// crops are applied, the combine hands crop to a nearby truck, the zone
    /// is updated, a deposit is credited to the score, and the clock runs.
    pub fn tick(&mut self, input: &TickInput) -> (report: TickReport)
        requires
            old(self).wf(),
            score_has_room(old(self).game.score),
        ensures
            final(self).wf(),
            final(self).combine_store.capacity == old(self).combine_store.capacity,
            final(self).truck_store.capacity == old(self).truck_store.capacity,
            old(self).state == GameState::GameOver ==> {
                &&& final(self).state == GameState::GameOver
                &&& final(self).game == old(self).game
                &&& final(self).combine_store == old(self).combine_store
                &&& final(self).truck_store == old(self).truck_store
                &&& final(self).crops@ == old(self).crops@
                &&& final(self).zone == old(self).zone
                &&& report.removed@.len() == 0
                &&& report.moved == 0
                &&& report.deposits@.len() == 0
                &&& !report.ended
            },
            old(self).state == GameState::Playing ==> ({
                let (after_squash, gone) = squash_fold(
                    old(self).crops@,
                    squashed_events(input.collisions@),
                );
                let (crops, contents, taken) = harvest_fold(
                    after_squash,
                    old(self).combine_store.contents as nat,
                    old(self).combine_store.capacity as nat,
                    harvested_events(input.collisions@),
                );
                let harvested = CombineStorage {
                    capacity: old(self).combine_store.capacity,
                    contents: contents as u32,
                };
                let moved = transfer_of(
                    input.combine_at,
                    input.truck_at,
                    harvested,
                    old(self).truck_store,
                );
                let combine = CombineStorage {
                    capacity: harvested.capacity,
                    contents: (harvested.contents - moved) as u32,
                };
                let truck = TruckStorage {
                    capacity: old(self).truck_store.capacity,
                    contents: (old(self).truck_store.contents + moved) as u32,
                };
                let zone = DropZone {
                    combine_in_zone: input.zone_overlaps@.contains(OverlapKind::Combine),
                    truck_in_zone: input.zone_overlaps@.contains(OverlapKind::Truck),
                };
                let deposits = deposit_events(zone, input.deposit_pressed, combine, truck);
                let remaining = time_after(
                    old(self).game.time_remaining_us as nat,
                    input.dt_us as nat,
                );
                &&& final(self).crops@ == crops
                &&& report.removed@ == gone + taken
                &&& report.moved == moved
                &&& final(self).zone == zone
                &&& report.deposits@ == deposits
                &&& final(self).combine_store.contents == (if input.deposit_pressed
                    && zone.combine_in_zone {
                    0
                } else {
                    combine.contents
                })
                &&& final(self).truck_store.contents == (if input.deposit_pressed
                    && zone.truck_in_zone {
                    0
                } else {
                    truck.contents
                })
                &&& final(self).game.score == old(self).game.score + total_amount(deposits)
                &&& final(self).game.time_remaining_us == remaining
                &&& report.ended == (remaining == 0)
                &&& final(self).state == (if remaining == 0 {
                    GameState::GameOver
                } else {
                    GameState::Playing
                })
                &&& final(self).game.combine == old(self).game.combine
                &&& final(self).game.truck == old(self).game.truck
            }),
    {
        match self.state {
            GameState::GameOver => {
                return TickReport {
                    removed: Vec::new(),
                    moved: 0,
                    deposits: Vec::new(),
                    ended: false,
                };
            },
            GameState::Playing => {},
        }
        let harvested = combine_collision_check(&input.collisions);
        let squashed = truck_collision_check(&input.collisions);
        let removed = crop_events_handler(
            &mut self.crops,
            &squashed,
            &harvested,
            &mut self.combine_store,
        );
        let moved = transfer_harvest(
            input.combine_at,
            input.truck_at,
            &mut self.combine_store,
            &mut self.truck_store,
        );
        drop_zone_update(&mut self.zone, &input.zone_overlaps);
        let ghost combine_before = self.combine_store;
        let ghost truck_before = self.truck_store;
        let deposits = drop_zone_accept(
            &self.zone,
            input.deposit_pressed,
            &mut self.combine_store,
            &mut self.truck_store,
        );
        proof {
            lemma_deposit_total(self.zone, input.deposit_pressed, combine_before, truck_before);
        }
        update_score(&mut self.game, &deposits);
        let ended = countdown_timer(&mut self.game, &mut self.state, input.dt_us);
        TickReport { removed, moved, deposits, ended }
    }
}

} // verus!
