use vstd::prelude::*;
use crate::game::EntityId;
use crate::harvest::{CropHarvestedEvent, CropSquashedEvent};

verus! {

/// Collision categories. A body belongs to some of them.
#[derive(Clone, Copy, Debug, PartialEq, Eq, Structural, Hash)]
pub enum GameLayer {
    Combine,
    Truck,
    Vehicle,
    Crop,
    Obstacle,
    World,
    Animal,
}

/// The set of categories that a body belongs to.
#[derive(Clone, Copy, Debug, PartialEq, Eq, Structural, Default)]
pub struct LayerSet {
    pub combine: bool,
    pub truck: bool,
    pub vehicle: bool,
    pub crop: bool,
    pub obstacle: bool,
    pub world: bool,
    pub animal: bool,
}

impl LayerSet {
    pub open spec fn has(self, layer: GameLayer) -> bool {
        match layer {
            GameLayer::Combine => self.combine,
            GameLayer::Truck => self.truck,
            GameLayer::Vehicle => self.vehicle,
            GameLayer::Crop => self.crop,
            GameLayer::Obstacle => self.obstacle,
            GameLayer::World => self.world,
            GameLayer::Animal => self.animal,
        }
    }

    /// The empty set.
    pub fn none() -> (s: LayerSet)
        ensures
            forall|l: GameLayer| !s.has(l),
    {
        LayerSet {
            combine: false,
            truck: false,
            vehicle: false,
            crop: false,
            obstacle: false,
            world: false,
            animal: false,
        }
    }

    /// This set with `layer` added.
    pub fn with_group(self, layer: GameLayer) -> (s: LayerSet)
        ensures
            forall|l: GameLayer| s.has(l) == (self.has(l) || l == layer),
    {
        let mut s = self;
        match layer {
            GameLayer::Combine => s.combine = true,
            GameLayer::Truck => s.truck = true,
            GameLayer::Vehicle => s.vehicle = true,
            GameLayer::Crop => s.crop = true,
            GameLayer::Obstacle => s.obstacle = true,
            GameLayer::World => s.world = true,
            GameLayer::Animal => s.animal = true,
        }
        s
    }

    /// Whether `layer` is in the set.
    pub fn contains_group(&self, layer: GameLayer) -> (r: bool)
        ensures
            r == self.has(layer),
    {
        match layer {
            GameLayer::Combine => self.combine,
            GameLayer::Truck => self.truck,
            GameLayer::Vehicle => self.vehicle,
            GameLayer::Crop => self.crop,
            GameLayer::Obstacle => self.obstacle,
            GameLayer::World => self.world,
            GameLayer::Animal => self.animal,
        }
    }
}

/// The kinds of bodies in the world.
#[derive(Clone, Copy, Debug, PartialEq, Eq, Structural)]
pub enum Body {
    Combine,
    Truck,
    Crop,
    Fence,
    Ground,
    DropZone,
    Animal,
}

/// The categories a body belongs to (`groups`) and those it collides with
/// (`masks`).
#[derive(Clone, Copy, Debug, PartialEq, Eq, Structural)]
pub struct BodyLayers {
    pub groups: LayerSet,
    pub masks: LayerSet,
}

pub open spec fn in_groups(body: Body, l: GameLayer) -> bool {
    match body {
        Body::Combine => l == GameLayer::Combine || l == GameLayer::Vehicle,
        Body::Truck => l == GameLayer::Truck || l == GameLayer::Vehicle,
        Body::Crop => l == GameLayer::Crop,
        Body::Fence | Body::Ground | Body::DropZone => l == GameLayer::World,
        Body::Animal => l == GameLayer::Animal || l == GameLayer::Obstacle,
    }
}

pub open spec fn in_masks(body: Body, l: GameLayer) -> bool {
    match body {
        Body::Combine | Body::Truck => l == GameLayer::Crop || l == GameLayer::Obstacle || l
            == GameLayer::Vehicle || l == GameLayer::World,
        Body::Crop | Body::Fence | Body::DropZone => l == GameLayer::Combine || l
            == GameLayer::Truck,
        Body::Ground => l == GameLayer::Vehicle || l == GameLayer::Animal,
        Body::Animal => l == GameLayer::World || l == GameLayer::Obstacle || l
            == GameLayer::Vehicle,
    }
}

/// The collision categories of each kind of body: vehicles meet crops,
/// obstacles, each other and the world; crops, fences and the drop zone
/// sense the two vehicles; the ground carries vehicles and animals.
pub fn collision_layers(body: Body) -> (r: BodyLayers)
    ensures
        forall|l: GameLayer| r.groups.has(l) == in_groups(body, l),
        forall|l: GameLayer| r.masks.has(l) == in_masks(body, l),
{
    let none = LayerSet::none();
    match body {
        Body::Combine => BodyLayers {
            groups: none.with_group(GameLayer::Combine).with_group(GameLayer::Vehicle),
            masks: none.with_group(GameLayer::Crop).with_group(GameLayer::Obstacle).with_group(
                GameLayer::Vehicle,
            ).with_group(GameLayer::World),
        },
        Body::Truck => BodyLayers {
            groups: none.with_group(GameLayer::Truck).with_group(GameLayer::Vehicle),
            masks: none.with_group(GameLayer::Crop).with_group(GameLayer::Obstacle).with_group(
                GameLayer::Vehicle,
            ).with_group(GameLayer::World),
        },
        Body::Crop => BodyLayers {
            groups: none.with_group(GameLayer::Crop),
            masks: none.with_group(GameLayer::Combine).with_group(GameLayer::Truck),
        },
        Body::Fence | Body::DropZone => BodyLayers {
            groups: none.with_group(GameLayer::World),
            masks: none.with_group(GameLayer::Combine).with_group(GameLayer::Truck),
        },
        Body::Ground => BodyLayers {
            groups: none.with_group(GameLayer::World),
            masks: none.with_group(GameLayer::Vehicle).with_group(GameLayer::Animal),
        },
        Body::Animal => BodyLayers {
            groups: none.with_group(GameLayer::Animal).with_group(GameLayer::Obstacle),
            masks: none.with_group(GameLayer::World).with_group(GameLayer::Obstacle).with_group(
                GameLayer::Vehicle,
            ),
        },
    }
}

/// One side of a collision: the body and its categories.
#[derive(Clone, Copy, Debug, PartialEq, Eq, Structural)]
pub struct CollisionData {
    pub entity: EntityId,
    pub layers: LayerSet,
}

/// A change of contact between two bodies, as the physics reports it.
#[derive(Clone, Copy, Debug, PartialEq, Eq, Structural)]
pub enum CollisionEvent {
    Started(CollisionData, CollisionData),
    Stopped(CollisionData, CollisionData),
}

/// What a collision means for the crop it involves.
#[derive(Clone, Copy, Debug, PartialEq, Eq, Structural)]
pub enum CropEvent {
    Harvested(EntityId),
    Squashed(EntityId),
}

/// The meaning of one collision. Only a start of contact counts. When
/// exactly one side is the combine, the other side is harvested; failing
/// that, when exactly one side is the truck, the other side is squashed.
pub open spec fn crop_event_of(e: CollisionEvent) -> Option<CropEvent> {
    match e {
        CollisionEvent::Started(a, b) => {
            if a.layers.has(GameLayer::Combine) != b.layers.has(GameLayer::Combine) {
                Some(
                    CropEvent::Harvested(
                        if a.layers.has(GameLayer::Combine) { b.entity } else { a.entity },
                    ),
                )
            } else if a.layers.has(GameLayer::Truck) != b.layers.has(GameLayer::Truck) {
                Some(
                    CropEvent::Squashed(
                        if a.layers.has(GameLayer::Truck) { b.entity } else { a.entity },
                    ),
                )
            } else {
                None
            }
        },
        CollisionEvent::Stopped(_, _) => None,
    }
}

/// The harvest events that a list of collisions raises, in order.
pub open spec fn harvested_events(s: Seq<CollisionEvent>) -> Seq<CropHarvestedEvent>
    decreases s.len(),
{
    if s.len() == 0 {
        seq![]
    } else {
        let prev = harvested_events(s.drop_last());
        match crop_event_of(s.last()) {
            Some(CropEvent::Harvested(e)) => prev.push(CropHarvestedEvent { entity: e }),
            _ => prev,
        }
    }
}

/// The squash events that a list of collisions raises, in order.
pub open spec fn squashed_events(s: Seq<CollisionEvent>) -> Seq<CropSquashedEvent>
    decreases s.len(),
{
    if s.len() == 0 {
        seq![]
    } else {
        let prev = squashed_events(s.drop_last());
        match crop_event_of(s.last()) {
            Some(CropEvent::Squashed(e)) => prev.push(CropSquashedEvent { entity: e }),
            _ => prev,
        }
    }
}

/// Classifies one collision.
pub fn classify_collision(e: &CollisionEvent) -> (r: Option<CropEvent>)
    ensures
        r == crop_event_of(*e),
{
    match e {
        CollisionEvent::Started(a, b) => {
            let a_combine = a.layers.contains_group(GameLayer::Combine);
            let b_combine = b.layers.contains_group(GameLayer::Combine);
            let a_truck = a.layers.contains_group(GameLayer::Truck);
            let b_truck = b.layers.contains_group(GameLayer::Truck);
            if a_combine != b_combine {
                Some(CropEvent::Harvested(if a_combine { b.entity } else { a.entity }))
            } else if a_truck != b_truck {
                Some(CropEvent::Squashed(if a_truck { b.entity } else { a.entity }))
            } else {
                None
            }
        },
        CollisionEvent::Stopped(_, _) => None,
    }
}

/// The harvest events raised by this tick's collisions.
pub fn combine_collision_check(collisions: &Vec<CollisionEvent>) -> (r: Vec<CropHarvestedEvent>)
    ensures
        r@ == harvested_events(collisions@),
{
    let mut out: Vec<CropHarvestedEvent> = Vec::new();
    let mut i: usize = 0;
    while i < collisions.len()
        invariant
            i <= collisions.len(),
            out@ == harvested_events(collisions@.take(i as int)),
        decreases collisions.len() - i,
    {
        assert(collisions@.take(i as int + 1).drop_last() =~= collisions@.take(i as int));
        match classify_collision(&collisions[i]) {
            Some(CropEvent::Harvested(e)) => out.push(CropHarvestedEvent { entity: e }),
            _ => {},
        }
        i = i + 1;
    }
    assert(collisions@.take(collisions.len() as int) =~= collisions@);
    out
}

/// The squash events raised by this tick's collisions.
pub fn truck_collision_check(collisions: &Vec<CollisionEvent>) -> (r: Vec<CropSquashedEvent>)
    ensures
        r@ == squashed_events(collisions@),
{
    let mut out: Vec<CropSquashedEvent> = Vec::new();
    let mut i: usize = 0;
    while i < collisions.len()
        invariant
            i <= collisions.len(),
            out@ == squashed_events(collisions@.take(i as int)),
        decreases collisions.len() - i,
    {
        assert(collisions@.take(i as int + 1).drop_last() =~= collisions@.take(i as int));
        match classify_collision(&collisions[i]) {
            Some(CropEvent::Squashed(e)) => out.push(CropSquashedEvent { entity: e }),
            _ => {},
        }
        i = i + 1;
    }
    assert(collisions@.take(collisions.len() as int) =~= collisions@);
    out
}

} // verus!
