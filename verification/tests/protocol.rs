//! The bundle-effect protocol on concrete stores: splicing, effects, and
//! the single-use ownership slot.

use std::cell::Cell;
use std::rc::Rc;

use effect_bundles::bundle::BundlePair;
use effect_bundles::bundle::DataBundle;
use effect_bundles::bundle::EffectSlot;
use effect_bundles::construct::ComponentConstruct;
use effect_bundles::construct::ConstFactory;
use effect_bundles::construct::ReadComponent;
use effect_bundles::observe::observe;
use effect_bundles::world::World;

/// A payload that counts how many times it is dropped.
struct DropCounter {
    drops: Rc<Cell<u32>>,
}

impl Drop for DropCounter {
    fn drop(&mut self) {
        self.drops.set(self.drops.get() + 1);
    }
}

#[test]
fn slot_hands_payload_through_once() {
    let mut slot = EffectSlot::fill(41i64);
    assert_eq!(slot.claim(), 41);
}

#[test]
fn slot_payload_dropped_exactly_once() {
    let drops = Rc::new(Cell::new(0u32));
    {
        let mut slot = EffectSlot::fill(DropCounter { drops: Rc::clone(&drops) });
        assert_eq!(drops.get(), 0);
        let payload = slot.claim();
        assert_eq!(drops.get(), 0);
        drop(payload);
        assert_eq!(drops.get(), 1);
        drop(slot);
    }
    assert_eq!(drops.get(), 1);
}

#[test]
fn slot_dropped_unclaimed_drops_payload_once() {
    let drops = Rc::new(Cell::new(0u32));
    {
        let _slot = EffectSlot::fill(DropCounter { drops: Rc::clone(&drops) });
    }
    assert_eq!(drops.get(), 1);
}

#[test]
fn data_bundle_splices_component() {
    let mut w = World::new();
    w.insert(5, DataBundle { comp_id: 1, value: 17 });
    assert_eq!(w.get_component(5, 1), Some(17));
    assert_eq!(w.get_component(5, 2), None);
    assert_eq!(w.get_component(6, 1), None);
}

#[test]
fn reinsertion_replaces_component() {
    let mut w = World::new();
    w.insert(5, DataBundle { comp_id: 1, value: 17 });
    w.insert(5, DataBundle { comp_id: 1, value: 18 });
    assert_eq!(w.get_component(5, 1), Some(18));
}

#[test]
fn constructor_bundle_attaches_computed_component() {
    let mut w = World::new();
    let bundle = 7u64.construct(ConstFactory { value: 42 });
    w.insert(5, bundle);
    assert_eq!(w.get_component(5, 7), Some(42));
    assert_eq!(w.get_component(5, 6), None);
    assert!(w.fired_observers(5, 0).is_empty());
}

#[test]
fn constructor_reads_another_entity() {
    let mut w = World::new();
    w.insert(1, DataBundle { comp_id: 9, value: -3 });
    let bundle = 9u64.construct(ReadComponent { entity: 1, comp_id: 9, missing: 0 });
    w.insert(2, bundle);
    assert_eq!(w.get_component(2, 9), Some(-3));
}

#[test]
fn pair_splices_both_data_facets() {
    let mut w = World::new();
    let pair = BundlePair {
        first: DataBundle { comp_id: 1, value: 10 },
        second: DataBundle { comp_id: 2, value: 20 },
    };
    w.insert(3, pair);
    assert_eq!(w.get_component(3, 1), Some(10));
    assert_eq!(w.get_component(3, 2), Some(20));
}

#[test]
fn observe_builds_the_bundle() {
    let bundle = observe(11, 100);
    assert_eq!(bundle.event_kind, 11);
    assert_eq!(bundle.handler, 100);
}

#[test]
fn observer_bundle_registers_handler() {
    let mut w = World::new();
    w.insert(4, observe(11, 100));
    assert_eq!(w.fired_observers(4, 11), vec![100]);
    assert!(w.get_component(4, 11).is_none());
}
