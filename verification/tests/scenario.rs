//! End-to-end scenarios: sibling visibility, observer scoping, scene
//! transparency, and the distance-from-origin construction.

use effect_bundles::bundle::BundlePair;
use effect_bundles::bundle::DataBundle;
use effect_bundles::construct::ComponentConstruct;
use effect_bundles::construct::Construct;
use effect_bundles::construct::ConstFactory;
use effect_bundles::construct::DistanceFromOrigin;
use effect_bundles::construct::ReadComponent;
use effect_bundles::observe::AddObserver;
use effect_bundles::observe::observe;
use effect_bundles::scene::EffectScene;
use effect_bundles::scene::SceneBuilder;
use effect_bundles::world::World;

const POS_X: u64 = 1;
const POS_Y: u64 = 2;
const DISTANCE: u64 = 3;

/// One insertion call: splice a position, then construct the entity's
/// distance from the origin off the freshly spliced position.
fn insert_position_with_distance(w: &mut World, entity: u64, x: i64, y: i64) {
    let bundle = BundlePair {
        first: BundlePair {
            first: DataBundle { comp_id: POS_X, value: x },
            second: DataBundle { comp_id: POS_Y, value: y },
        },
        second: DISTANCE.construct(DistanceFromOrigin { entity, x_id: POS_X, y_id: POS_Y }),
    };
    w.insert(entity, bundle);
}

#[test]
fn distance_at_origin_is_zero() {
    let mut w = World::new();
    insert_position_with_distance(&mut w, 100, 0, 0);
    assert_eq!(w.get_component(100, DISTANCE), Some(0));
}

#[test]
fn distance_of_three_four_is_five() {
    let mut w = World::new();
    insert_position_with_distance(&mut w, 100, 0, 0);
    insert_position_with_distance(&mut w, 101, 3, 4);
    assert_eq!(w.get_component(100, DISTANCE), Some(0));
    assert_eq!(w.get_component(101, DISTANCE), Some(5));
    let exact: f64 = ((3.0f64 * 3.0) + (4.0 * 4.0)).sqrt();
    assert_eq!(w.get_component(101, DISTANCE).unwrap() as f64, exact);
}

#[test]
fn distance_rounds_down_and_ignores_sign() {
    let mut w = World::new();
    insert_position_with_distance(&mut w, 1, 1, 1);
    insert_position_with_distance(&mut w, 2, -3, -4);
    insert_position_with_distance(&mut w, 3, 2, 3);
    assert_eq!(w.get_component(1, DISTANCE), Some(1));
    assert_eq!(w.get_component(2, DISTANCE), Some(5));
    assert_eq!(w.get_component(3, DISTANCE), Some(3));
}

#[test]
fn distance_without_position_is_zero() {
    let mut w = World::new();
    w.insert(7, DISTANCE.construct(DistanceFromOrigin { entity: 7, x_id: POS_X, y_id: POS_Y }));
    assert_eq!(w.get_component(7, DISTANCE), Some(0));
}

#[test]
fn distance_clamps_at_the_value_range() {
    let mut w = World::new();
    insert_position_with_distance(&mut w, 1, i64::MAX, i64::MAX);
    insert_position_with_distance(&mut w, 2, i64::MIN, i64::MIN);
    insert_position_with_distance(&mut w, 3, i64::MAX, 0);
    assert_eq!(w.get_component(1, DISTANCE), Some(i64::MAX));
    assert_eq!(w.get_component(2, DISTANCE), Some(i64::MAX));
    assert_eq!(w.get_component(3, DISTANCE), Some(i64::MAX));
}

#[test]
fn constructor_sees_sibling_spliced_in_same_call() {
    let mut w = World::new();
    w.insert(40, DataBundle { comp_id: POS_X, value: 999 });
    let pair = BundlePair {
        first: DataBundle { comp_id: POS_X, value: 3 },
        second: 8u64.construct(ReadComponent { entity: 41, comp_id: POS_X, missing: -1 }),
    };
    w.insert(41, pair);
    assert_eq!(w.get_component(41, 8), Some(3));
}

#[test]
fn constructor_effects_run_in_declaration_order() {
    let mut w = World::new();
    let pair = BundlePair {
        first: 1u64.construct(ConstFactory { value: 10 }),
        second: 2u64.construct(ReadComponent { entity: 5, comp_id: 1, missing: -1 }),
    };
    w.insert(5, pair);
    assert_eq!(w.get_component(5, 1), Some(10));
    assert_eq!(w.get_component(5, 2), Some(10));
}

#[test]
fn observer_fires_only_for_its_entity_and_kind() {
    let mut w = World::new();
    w.insert(1, observe(11, 100));
    w.insert(2, observe(11, 200));
    w.insert(1, observe(12, 300));
    assert_eq!(w.fired_observers(1, 11), vec![100]);
    assert_eq!(w.fired_observers(2, 11), vec![200]);
    assert_eq!(w.fired_observers(1, 12), vec![300]);
    assert_eq!(w.fired_observers(2, 12), Vec::<u64>::new());
    assert_eq!(w.fired_observers(3, 11), Vec::<u64>::new());
}

#[test]
fn observers_fire_in_registration_order() {
    let mut w = World::new();
    w.insert(1, observe(11, 100));
    w.insert(1, observe(11, 101));
    assert_eq!(w.fired_observers(1, 11), vec![100, 101]);
}

#[test]
fn scene_insertion_matches_direct_insertion() {
    let mut direct = World::new();
    let pair = BundlePair {
        first: Construct { comp_id: 7, factory: ConstFactory { value: 42 } },
        second: AddObserver { event_kind: 11, handler: 100 },
    };
    direct.insert(5, pair);

    let mut built = World::new();
    let scene = EffectScene {
        comp_id: 7,
        factory: ConstFactory { value: 42 },
        event_kind: 11,
        handler: 100,
    };
    built.insert(5, scene.build());

    assert_eq!(direct.get_component(5, 7), built.get_component(5, 7));
    assert_eq!(direct.get_component(5, 7), Some(42));
    assert_eq!(direct.fired_observers(5, 11), built.fired_observers(5, 11));
    assert_eq!(direct.fired_observers(5, 11), vec![100]);
    assert_eq!(direct.fired_observers(6, 11), built.fired_observers(6, 11));
}
