use farm_sim::collision::{CollisionData, CollisionEvent, CropEvent, GameLayer, LayerSet};
use farm_sim::drop_zone::OverlapKind;
use farm_sim::game::{EntityId, GameState};
use farm_sim::harvest::Crop;
use farm_sim::session::{Session, TickInput};
use farm_sim::storage::Position;

const COMBINE: u64 = 1;
const TRUCK: u64 = 2;

fn combine_hits(crop: u64) -> CollisionEvent {
    CollisionEvent::Started(
        CollisionData {
            entity: EntityId(COMBINE),
            layers: LayerSet::none().with_group(GameLayer::Combine).with_group(GameLayer::Vehicle),
        },
        CollisionData { entity: EntityId(crop), layers: LayerSet::none().with_group(GameLayer::Crop) },
    )
}

fn quiet_tick(dt_us: u64) -> TickInput {
    TickInput {
        collisions: vec![],
        combine_at: Some(Position { x: 0, y: 0, z: 0 }),
        truck_at: Some(Position { x: 100_000, y: 0, z: 0 }),
        zone_overlaps: vec![],
        deposit_pressed: false,
        dt_us,
    }
}

#[test]
fn storage_never_exceeds_capacity_over_a_session() {
    let mut s = Session::new();
    for id in 100..110u64 {
        s.crops.insert(EntityId(id), Crop { amount: 120 });
    }
    for id in 100..110u64 {
        let mut input = quiet_tick(16_000);
        input.collisions = vec![combine_hits(id)];
        let report = s.tick(&input);
        assert_eq!(report.removed, vec![CropEvent::Harvested(EntityId(id))]);
        assert!(s.combine_store.contents <= s.combine_store.capacity);
        assert!(s.truck_store.contents <= s.truck_store.capacity);
    }
    assert_eq!(s.combine_store.contents, 500);
}

#[test]
fn one_tick_harvests_transfers_and_deposits_in_order() {
    let mut s = Session::new();
    s.crops.insert(EntityId(50), Crop { amount: 30 });
    s.combine_store.contents = 20;
    let input = TickInput {
        collisions: vec![combine_hits(50)],
        combine_at: Some(Position { x: 60_000, y: 1_600, z: 0 }),
        truck_at: Some(Position { x: 70_000, y: 1_600, z: 0 }),
        zone_overlaps: vec![OverlapKind::Truck],
        deposit_pressed: true,
        dt_us: 16_000,
    };
    let report = s.tick(&input);
    assert_eq!(report.moved, 50);
    assert_eq!(report.deposits.len(), 1);
    assert_eq!(report.deposits[0].amount, 50);
    assert_eq!(s.game.score, 50);
    assert_eq!(s.combine_store.contents, 0);
    assert_eq!(s.truck_store.contents, 0);
    assert!(s.zone.truck_in_zone && !s.zone.combine_in_zone);
    assert!(!report.ended);
    assert_eq!(s.game.time_remaining_us, 300_000_000 - 16_000);
}

#[test]
fn session_stops_once_over() {
    let mut s = Session::new();
    s.crops.insert(EntityId(7), Crop { amount: 1 });
    let report = s.tick(&quiet_tick(300_000_000));
    assert!(report.ended);
    assert_eq!(s.state, GameState::GameOver);
    let mut input = quiet_tick(1_000_000);
    input.collisions = vec![combine_hits(7)];
    let report = s.tick(&input);
    assert!(!report.ended);
    assert!(report.removed.is_empty());
    assert!(s.crops.contains(EntityId(7)));
    assert_eq!(s.combine_store.contents, 0);
    assert_eq!(s.game.time_remaining_us, 0);
}

#[test]
fn new_session_starts_playing_with_empty_stores() {
    let s = Session::new();
    assert_eq!(s.state, GameState::Playing);
    assert_eq!((s.combine_store.capacity, s.combine_store.contents), (500, 0));
    assert_eq!((s.truck_store.capacity, s.truck_store.contents), (1500, 0));
    assert_eq!(s.game.score, 0);
    assert_eq!(s.game.time_remaining_us, 300_000_000);
}
