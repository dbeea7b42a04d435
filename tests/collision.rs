use farm_sim::collision::{
    classify_collision, collision_layers, Body, combine_collision_check, truck_collision_check, CollisionData,
    CollisionEvent, CropEvent, GameLayer, LayerSet,
};
use farm_sim::game::EntityId;
use farm_sim::harvest::{CropHarvestedEvent, CropSquashedEvent};

fn body(id: u64, layers: &[GameLayer]) -> CollisionData {
    let mut set = LayerSet::none();
    for l in layers {
        set = set.with_group(*l);
    }
    CollisionData { entity: EntityId(id), layers: set }
}

#[test]
fn combine_hitting_crop_harvests_it() {
    let events = vec![CollisionEvent::Started(
        body(1, &[GameLayer::Combine]),
        body(2, &[GameLayer::Crop]),
    )];
    assert_eq!(combine_collision_check(&events), vec![CropHarvestedEvent { entity: EntityId(2) }]);
    assert!(truck_collision_check(&events).is_empty());
    let swapped = vec![CollisionEvent::Started(
        body(2, &[GameLayer::Crop]),
        body(1, &[GameLayer::Combine, GameLayer::Vehicle]),
    )];
    assert_eq!(combine_collision_check(&swapped), vec![CropHarvestedEvent { entity: EntityId(2) }]);
}

#[test]
fn truck_hitting_crop_squashes_it() {
    let events = vec![CollisionEvent::Started(
        body(3, &[GameLayer::Truck]),
        body(4, &[GameLayer::Crop]),
    )];
    assert_eq!(truck_collision_check(&events), vec![CropSquashedEvent { entity: EntityId(4) }]);
    assert!(combine_collision_check(&events).is_empty());
}

#[test]
fn obstacle_hitting_world_means_nothing() {
    let e = CollisionEvent::Started(body(5, &[GameLayer::Obstacle]), body(6, &[GameLayer::World]));
    assert_eq!(classify_collision(&e), None);
    let events = vec![e];
    assert!(combine_collision_check(&events).is_empty());
    assert!(truck_collision_check(&events).is_empty());
}

#[test]
fn only_starts_of_contact_count() {
    let e = CollisionEvent::Stopped(body(1, &[GameLayer::Combine]), body(2, &[GameLayer::Crop]));
    assert_eq!(classify_collision(&e), None);
}

#[test]
fn combine_check_comes_before_truck_check() {
    let e = CollisionEvent::Started(
        body(1, &[GameLayer::Combine, GameLayer::Vehicle]),
        body(3, &[GameLayer::Truck, GameLayer::Vehicle]),
    );
    assert_eq!(classify_collision(&e), Some(CropEvent::Harvested(EntityId(3))));
    assert!(truck_collision_check(&vec![e]).is_empty());
    // Both sides tagged as combine: not exactly one, so nothing.
    let both = CollisionEvent::Started(body(1, &[GameLayer::Combine]), body(9, &[GameLayer::Combine]));
    assert_eq!(classify_collision(&both), None);
}

#[test]
fn every_collision_raises_its_own_event() {
    let events = vec![
        CollisionEvent::Started(body(1, &[GameLayer::Combine]), body(10, &[GameLayer::Crop])),
        CollisionEvent::Started(body(3, &[GameLayer::Truck]), body(11, &[GameLayer::Crop])),
        CollisionEvent::Started(body(1, &[GameLayer::Combine]), body(12, &[GameLayer::Crop])),
        CollisionEvent::Started(body(1, &[GameLayer::Combine]), body(10, &[GameLayer::Crop])),
    ];
    assert_eq!(
        combine_collision_check(&events),
        vec![
            CropHarvestedEvent { entity: EntityId(10) },
            CropHarvestedEvent { entity: EntityId(12) },
            CropHarvestedEvent { entity: EntityId(10) },
        ]
    );
    assert_eq!(truck_collision_check(&events), vec![CropSquashedEvent { entity: EntityId(11) }]);
}

#[test]
fn layer_sets_hold_what_was_added() {
    let s = LayerSet::none().with_group(GameLayer::Animal).with_group(GameLayer::Obstacle);
    assert!(s.contains_group(GameLayer::Animal));
    assert!(s.contains_group(GameLayer::Obstacle));
    assert!(!s.contains_group(GameLayer::World));
    assert!(!LayerSet::none().contains_group(GameLayer::Combine));
}

#[test]
fn bodies_carry_their_collision_categories() {
    let combine = collision_layers(Body::Combine);
    assert!(combine.groups.contains_group(GameLayer::Combine));
    assert!(combine.groups.contains_group(GameLayer::Vehicle));
    assert!(!combine.groups.contains_group(GameLayer::Truck));
    assert!(combine.masks.contains_group(GameLayer::Crop));
    let crop = collision_layers(Body::Crop);
    assert_eq!(crop.groups, LayerSet::none().with_group(GameLayer::Crop));
    assert_eq!(crop.masks, LayerSet::none().with_group(GameLayer::Combine).with_group(GameLayer::Truck));
    let animal = collision_layers(Body::Animal);
    assert!(animal.groups.contains_group(GameLayer::Obstacle));
    assert!(!animal.masks.contains_group(GameLayer::Crop));
    let ground = collision_layers(Body::Ground);
    assert!(ground.masks.contains_group(GameLayer::Animal) && ground.masks.contains_group(GameLayer::Vehicle));
}
