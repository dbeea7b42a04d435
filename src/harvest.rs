use vstd::prelude::*;
use std::collections::HashMap;
use crate::collision::CropEvent;
use crate::game::EntityId;
use crate::storage::CombineStorage;

verus! {

broadcast use vstd::std_specs::hash::group_hash_axioms;

/// A crop plant; `amount` is what harvesting it yields.
#[derive(Clone, Copy, Debug, PartialEq, Eq, Structural)]
pub struct Crop {
    pub amount: u32,
}

/// The combine ran into `entity`.
#[derive(Clone, Copy, Debug, PartialEq, Eq, Structural)]
pub struct CropHarvestedEvent {
    pub entity: EntityId,
}

/// The truck ran over `entity`.
#[derive(Clone, Copy, Debug, PartialEq, Eq, Structural)]
pub struct CropSquashedEvent {
    pub entity: EntityId,
}

/// The crops standing in the fields, by entity id.
pub struct Crops {
    by_entity: HashMap<u64, Crop>,
}

impl View for Crops {
    type V = Map<u64, Crop>;

    closed spec fn view(&self) -> Map<u64, Crop> {
        self.by_entity@
    }
}

impl Crops {
    /// No crops.
    pub fn new() -> (c: Crops)
        ensures
            c@ == Map::<u64, Crop>::empty(),
    {
        Crops { by_entity: HashMap::new() }
    }

    /// Plants `crop` as `entity`.
    pub fn insert(&mut self, entity: EntityId, crop: Crop)
        ensures
            final(self)@ == old(self)@.insert(entity.0, crop),
    {
        self.by_entity.insert(entity.0, crop);
    }

    /// The crop standing as `entity`, if any.
    pub fn get(&self, entity: EntityId) -> (r: Option<Crop>)
        ensures
            r == (if self@.contains_key(entity.0) { Some(self@[entity.0]) } else { None }),
    {
        match self.by_entity.get(&entity.0) {
            Some(c) => Some(*c),
            None => None,
        }
    }

    /// Whether a crop stands as `entity`.
    pub fn contains(&self, entity: EntityId) -> (r: bool)
        ensures
            r == self@.contains_key(entity.0),
    {
        self.by_entity.contains_key(&entity.0)
    }

    /// Removes the crop standing as `entity` and returns it.
    pub fn remove(&mut self, entity: EntityId) -> (r: Option<Crop>)
        ensures
            final(self)@ == old(self)@.remove(entity.0),
            r == (if old(self)@.contains_key(entity.0) {
                Some(old(self)@[entity.0])
            } else {
                None
            }),
    {
        self.by_entity.remove(&entity.0)
    }
}

/// Combine contents after taking in `amount`: what does not fit is lost.
pub open spec fn filled(contents: nat, capacity: nat, amount: nat) -> nat {
    if contents + amount <= capacity {
        contents + amount
    } else if contents <= capacity {
        capacity
    } else {
        contents
    }
}

/// Crops left, combine contents and crops taken, after the harvest events
/// of a tick in order.
pub open spec fn harvest_fold(
    crops: Map<u64, Crop>,
    contents: nat,
    capacity: nat,
    events: Seq<CropHarvestedEvent>,
) -> (Map<u64, Crop>, nat, Seq<CropEvent>)
    decreases events.len(),
{
    if events.len() == 0 {
        (crops, contents, seq![])
    } else {
        let (m, c, taken) = harvest_fold(crops, contents, capacity, events.drop_last());
        let e = events.last().entity;
        if m.contains_key(e.0) {
            (m.remove(e.0), filled(c, capacity, m[e.0].amount as nat), taken.push(CropEvent::Harvested(e)))
        } else {
            (m, c, taken)
        }
    }
}

/// Crops left and crops destroyed after the squash events of a tick in
/// order.
pub open spec fn squash_fold(crops: Map<u64, Crop>, events: Seq<CropSquashedEvent>) -> (Map<
    u64,
    Crop,
>, Seq<CropEvent>)
    decreases events.len(),
{
    if events.len() == 0 {
        (crops, seq![])
    } else {
        let (m, gone) = squash_fold(crops, events.drop_last());
        let e = events.last().entity;
        if m.contains_key(e.0) {
            (m.remove(e.0), gone.push(CropEvent::Squashed(e)))
        } else {
            (m, gone)
        }
    }
}

/// Harvesting a standing crop of yield `A` raises the contents by
/// `min(A, capacity - contents)` and removes the crop.
pub proof fn lemma_harvest_yield(
    crops: Map<u64, Crop>,
    contents: nat,
    capacity: nat,
    event: CropHarvestedEvent,
)
    requires
        contents <= capacity,
        crops.contains_key(event.entity.0),
    ensures
        ({
            let (m, c, taken) = harvest_fold(crops, contents, capacity, seq![event]);
            let a = crops[event.entity.0].amount as int;
            &&& c == contents + (if a <= capacity - contents { a } else { capacity - contents })
            &&& !m.contains_key(event.entity.0)
            &&& taken == seq![CropEvent::Harvested(event.entity)]
        }),
{
    assert(seq![event].drop_last() =~= Seq::<CropHarvestedEvent>::empty());
    reveal_with_fuel(harvest_fold, 2);
}

/// Whatever a tick's harvest events are, the combine's contents stay within
/// its capacity.
pub proof fn lemma_harvest_within_capacity(
    crops: Map<u64, Crop>,
    contents: nat,
    capacity: nat,
    events: Seq<CropHarvestedEvent>,
)
    requires
        contents <= capacity,
    ensures
        harvest_fold(crops, contents, capacity, events).1 <= capacity,
    decreases events.len(),
{
    if events.len() > 0 {
        lemma_harvest_within_capacity(crops, contents, capacity, events.drop_last());
    }
}

/// Every crop named by a squash event is gone once the tick's squash events
/// are applied.
pub proof fn lemma_squash_removes(crops: Map<u64, Crop>, events: Seq<CropSquashedEvent>, i: int)
    requires
        0 <= i < events.len(),
    ensures
        !squash_fold(crops, events).0.contains_key(events[i].entity.0),
    decreases events.len(),
{
    let last = events.len() - 1;
    if i < last {
        lemma_squash_removes(crops, events.drop_last(), i);
    }
}

/// Harvests one crop into the combine. A crop that is gone already is
/// ignored; otherwise its yield is added as far as the combine has room and
/// the crop is removed. Returns whether a crop was taken.
pub fn harvest_crop(crops: &mut Crops, store: &mut CombineStorage, event: &CropHarvestedEvent) -> (taken: bool)
    requires
        old(store).wf(),
    ensures
        final(store).wf(),
        final(store).capacity == old(store).capacity,
        taken == old(crops)@.contains_key(event.entity.0),
        final(crops)@ == old(crops)@.remove(event.entity.0),
        taken ==> final(store).contents == filled(
            old(store).contents as nat,
            old(store).capacity as nat,
            old(crops)@[event.entity.0].amount as nat,
        ),
        !taken ==> final(store).contents == old(store).contents,
{
    match crops.remove(event.entity) {
        Some(crop) => {
            let room: u32 = store.capacity - store.contents;
            let added: u32 = if crop.amount <= room { crop.amount } else { room };
            store.contents = store.contents + added;
            true
        },
        None => false,
    }
}

/// Destroys one squashed crop; storage is not touched. Returns whether a
/// crop was destroyed.
pub fn squash_crop(crops: &mut Crops, event: &CropSquashedEvent) -> (destroyed: bool)
    ensures
        destroyed == old(crops)@.contains_key(event.entity.0),
        final(crops)@ == old(crops)@.remove(event.entity.0),
{
    crops.remove(event.entity).is_some()
}

/// Applies a tick's squash events, then its harvest events, and returns the
/// crops removed, in order, with how each went.
pub fn crop_events_handler(
    crops: &mut Crops,
    squashed: &Vec<CropSquashedEvent>,
    harvested: &Vec<CropHarvestedEvent>,
    combine_store: &mut CombineStorage,
) -> (removed: Vec<CropEvent>)
    requires
        old(combine_store).wf(),
    ensures
        final(combine_store).wf(),
        final(combine_store).capacity == old(combine_store).capacity,
        harvested@.len() == 0 ==> final(combine_store).contents == old(combine_store).contents,
        ({
            let (after_squash, gone) = squash_fold(old(crops)@, squashed@);
            let (after_harvest, contents, taken) = harvest_fold(
                after_squash,
                old(combine_store).contents as nat,
                old(combine_store).capacity as nat,
                harvested@,
            );
            &&& final(crops)@ == after_harvest
            &&& final(combine_store).contents == contents
            &&& removed@ == gone + taken
        }),
{
    let mut removed: Vec<CropEvent> = Vec::new();
    let mut i: usize = 0;
    while i < squashed.len()
        invariant
            i <= squashed.len(),
            (crops@, removed@) == squash_fold(old(crops)@, squashed@.take(i as int)),
        decreases squashed.len() - i,
    {
        assert(squashed@.take(i as int + 1).drop_last() =~= squashed@.take(i as int));
        let e = squashed[i].entity;
        if squash_crop(crops, &squashed[i]) {
            removed.push(CropEvent::Squashed(e));
        }
        i = i + 1;
    }
    assert(squashed@.take(squashed.len() as int) =~= squashed@);
    let ghost after_squash = crops@;
    let ghost gone = removed@;
    let mut j: usize = 0;
    while j < harvested.len()
        invariant
            j <= harvested.len(),
            combine_store.wf(),
            combine_store.capacity == old(combine_store).capacity,
            ({
                let (m, c, taken) = harvest_fold(
                    after_squash,
                    old(combine_store).contents as nat,
                    old(combine_store).capacity as nat,
                    harvested@.take(j as int),
                );
                &&& crops@ == m
                &&& combine_store.contents == c
                &&& removed@ == gone + taken
            }),
        decreases harvested.len() - j,
    {
        assert(harvested@.take(j as int + 1).drop_last() =~= harvested@.take(j as int));
        let e = harvested[j].entity;
        if harvest_crop(crops, combine_store, &harvested[j]) {
            removed.push(CropEvent::Harvested(e));
            proof {
                let (m, c, taken) = harvest_fold(
                    after_squash,
                    old(combine_store).contents as nat,
                    old(combine_store).capacity as nat,
                    harvested@.take(j as int),
                );
                assert(gone + taken.push(CropEvent::Harvested(e)) =~= (gone + taken).push(
                    CropEvent::Harvested(e),
                ));
            }
        }
        j = j + 1;
    }
    assert(harvested@.take(harvested.len() as int) =~= harvested@);
    removed
}

} // verus!
