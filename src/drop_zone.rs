use vstd::prelude::*;
use crate::game::{total_amount, ScoreChangeEvent};
use crate::storage::{CombineStorage, TruckStorage};

verus! {

/// Side length of the drop zone's cube, in world units.
pub const DROP_ZONE_SIZE: u32 = 40;

/// Which vehicles stand in the drop zone.
#[derive(Clone, Copy, Debug, PartialEq, Eq, Structural, Default)]
pub struct DropZone {
    pub combine_in_zone: bool,
    pub truck_in_zone: bool,
}

/// What a body overlapping the zone turns out to be.
#[derive(Clone, Copy, Debug, PartialEq, Eq, Structural)]
pub enum OverlapKind {
    Combine,
    Truck,
    Other,
}

impl DropZone {
    /// Neither vehicle in the zone.
    pub fn new() -> (z: DropZone)
        ensures
            !z.combine_in_zone,
            !z.truck_in_zone,
    {
        DropZone { combine_in_zone: false, truck_in_zone: false }
    }
}

/// The score changes that a deposit raises: one for each vehicle in the
/// zone, combine first, each crediting what that vehicle holds.
pub open spec fn deposit_events(
    zone: DropZone,
    pressed: bool,
    combine: CombineStorage,
    truck: TruckStorage,
) -> Seq<ScoreChangeEvent> {
    if !pressed {
        seq![]
    } else {
        let c: Seq<ScoreChangeEvent> = if zone.combine_in_zone {
            seq![ScoreChangeEvent { amount: combine.contents }]
        } else {
            seq![]
        };
        let t: Seq<ScoreChangeEvent> = if zone.truck_in_zone {
            seq![ScoreChangeEvent { amount: truck.contents }]
        } else {
            seq![]
        };
        c + t
    }
}

/// Recomputes which vehicles are in the zone from the bodies overlapping it
/// this tick.
pub fn drop_zone_update(zone: &mut DropZone, overlapping: &Vec<OverlapKind>)
    ensures
        final(zone).combine_in_zone == overlapping@.contains(OverlapKind::Combine),
        final(zone).truck_in_zone == overlapping@.contains(OverlapKind::Truck),
{
    let mut combine_found = false;
    let mut truck_found = false;
    let mut i: usize = 0;
    while i < overlapping.len()
        invariant
            i <= overlapping.len(),
            combine_found == overlapping@.take(i as int).contains(OverlapKind::Combine),
            truck_found == overlapping@.take(i as int).contains(OverlapKind::Truck),
        decreases overlapping.len() - i,
    {
        let ghost before = overlapping@.take(i as int);
        assert(overlapping@.take(i as int + 1) =~= before.push(overlapping@[i as int]));
        match overlapping[i] {
            OverlapKind::Combine => combine_found = true,
            OverlapKind::Truck => truck_found = true,
            OverlapKind::Other => {},
        }
        proof {
            let after = overlapping@.take(i as int + 1);
            assert(after[i as int] == overlapping@[i as int]);
            assert(forall|k: int| 0 <= k < i ==> after[k] == before[k]);
        }
        i = i + 1;
    }
    assert(overlapping@.take(overlapping.len() as int) =~= overlapping@);
    zone.combine_in_zone = combine_found;
    zone.truck_in_zone = truck_found;
}

/// On a deposit press, empties each vehicle standing in the zone and
/// returns a score change for what it held.
pub fn drop_zone_accept(
    zone: &DropZone,
    deposit_pressed: bool,
    combine_store: &mut CombineStorage,
    truck_store: &mut TruckStorage,
) -> (events: Vec<ScoreChangeEvent>)
    requires
        old(combine_store).wf(),
        old(truck_store).wf(),
    ensures
        final(combine_store).wf(),
        final(truck_store).wf(),
        events@ == deposit_events(*zone, deposit_pressed, *old(combine_store), *old(truck_store)),
        final(combine_store).capacity == old(combine_store).capacity,
        final(truck_store).capacity == old(truck_store).capacity,
        final(combine_store).contents == (if deposit_pressed && zone.combine_in_zone {
            0
        } else {
            old(combine_store).contents
        }),
        final(truck_store).contents == (if deposit_pressed && zone.truck_in_zone {
            0
        } else {
            old(truck_store).contents
        }),
{
    let mut events: Vec<ScoreChangeEvent> = Vec::new();
    if deposit_pressed {
        if zone.combine_in_zone {
            events.push(ScoreChangeEvent { amount: combine_store.contents });
            combine_store.contents = 0;
        }
        if zone.truck_in_zone {
            events.push(ScoreChangeEvent { amount: truck_store.contents });
            truck_store.contents = 0;
        }
    }
    proof {
        assert(events@ =~= deposit_events(
            *zone,
            deposit_pressed,
            *old(combine_store),
            *old(truck_store),
        ));
    }
    events
}

/// A deposit credits exactly what the vehicles in the zone held, and nothing
/// when the key is not pressed.
pub proof fn lemma_deposit_total(
    zone: DropZone,
    pressed: bool,
    combine: CombineStorage,
    truck: TruckStorage,
)
    ensures
        total_amount(deposit_events(zone, pressed, combine, truck)) == (if pressed
            && zone.combine_in_zone {
            combine.contents as nat
        } else {
            0nat
        }) + (if pressed && zone.truck_in_zone {
            truck.contents as nat
        } else {
            0nat
        }),
{
    let s = deposit_events(zone, pressed, combine, truck);
    reveal_with_fuel(total_amount, 3);
    if pressed {
        if zone.combine_in_zone && zone.truck_in_zone {
            assert(s.drop_last() =~= seq![ScoreChangeEvent { amount: combine.contents }]);
            assert(s.drop_last().drop_last() =~= Seq::<ScoreChangeEvent>::empty());
        } else if zone.combine_in_zone || zone.truck_in_zone {
            assert(s.drop_last() =~= Seq::<ScoreChangeEvent>::empty());
        } else {
            assert(s =~= Seq::<ScoreChangeEvent>::empty());
        }
    }
}

} // verus!
