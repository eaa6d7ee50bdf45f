//! The data store: entities, their components, and registered observers.
//!
//! The store is the one shared mutable resource of the protocol. Component
//! records are appended; a later record for the same entity and component
//! kind shadows an earlier one, so the abstract state is a map from
//! (entity, component kind) to the component value, together with the
//! sequence of observer registrations in the order they were made.

use vstd::prelude::*;

verus! {

/// One component record: `value` attached to entity `entity` under the
/// component kind `comp_id`.
#[derive(Clone, Copy, PartialEq, Eq, Structural)]
pub struct ComponentEntry {
    pub entity: u64,
    pub comp_id: u64,
    pub value: i64,
}

/// One observer registration: handler `handler` reacts to events of kind
/// `event_kind` targeted at entity `entity`.
#[derive(Clone, Copy, PartialEq, Eq, Structural)]
pub struct ObserverEntry {
    pub entity: u64,
    pub event_kind: u64,
    pub handler: u64,
}

/// The abstract state of a store: which value each (entity, component kind)
/// pair holds, and which observers are registered, in registration order.
#[verifier::ext_equal]
pub struct WorldView {
    pub components: Map<(u64, u64), i64>,
    pub observers: Seq<ObserverEntry>,
}

impl WorldView {
    /// The component of kind `comp_id` on `entity`, if any.
    pub open spec fn component(self, entity: u64, comp_id: u64) -> Option<i64> {
        if self.components.dom().contains((entity, comp_id)) {
            Some(self.components[(entity, comp_id)])
        } else {
            None
        }
    }

    /// The state after attaching `value` to `entity` under `comp_id`,
    /// replacing any component of that kind already present.
    pub open spec fn with_component(self, entity: u64, comp_id: u64, value: i64) -> WorldView {
        WorldView {
            components: self.components.insert((entity, comp_id), value),
            observers: self.observers,
        }
    }

    /// The state after registering one more observer.
    pub open spec fn with_observer(self, entity: u64, event_kind: u64, handler: u64) -> WorldView {
        WorldView {
            components: self.components,
            observers: self.observers.push(
                ObserverEntry { entity, event_kind, handler },
            ),
        }
    }
}

/// The handlers that an event of kind `event_kind` targeted at `target`
/// reaches: exactly the observers registered for that entity and that event
/// kind, in registration order.
pub open spec fn fired(obs: Seq<ObserverEntry>, target: u64, event_kind: u64) -> Seq<u64>
    decreases obs.len(),
{
    if obs.len() == 0 {
        Seq::empty()
    } else {
        let rest = fired(obs.drop_last(), target, event_kind);
        if obs.last().entity == target && obs.last().event_kind == event_kind {
            rest.push(obs.last().handler)
        } else {
            rest
        }
    }
}

/// The map that a sequence of component records denotes: a later record for
/// the same (entity, component kind) pair shadows an earlier one.
pub open spec fn components_map(s: Seq<ComponentEntry>) -> Map<(u64, u64), i64>
    decreases s.len(),
{
    if s.len() == 0 {
        Map::empty()
    } else {
        components_map(s.drop_last()).insert(
            (s.last().entity, s.last().comp_id),
            s.last().value,
        )
    }
}

/// The component that the records `s` give `entity` under `comp_id`: the
/// value of the latest matching record.
pub open spec fn lookup(s: Seq<ComponentEntry>, entity: u64, comp_id: u64) -> Option<i64>
    decreases s.len(),
{
    if s.len() == 0 {
        None
    } else if s.last().entity == entity && s.last().comp_id == comp_id {
        Some(s.last().value)
    } else {
        lookup(s.drop_last(), entity, comp_id)
    }
}

proof fn lemma_lookup_matches_map(s: Seq<ComponentEntry>, entity: u64, comp_id: u64)
    ensures
        lookup(s, entity, comp_id) == (if components_map(s).dom().contains((entity, comp_id)) {
            Some(components_map(s)[(entity, comp_id)])
        } else {
            None::<i64>
        }),
    decreases s.len(),
{
    if s.len() > 0 {
        lemma_lookup_matches_map(s.drop_last(), entity, comp_id);
    }
}

/// The live data store.
pub struct World {
    components: Vec<ComponentEntry>,
    observers: Vec<ObserverEntry>,
}

impl View for World {
    type V = WorldView;

    closed spec fn view(&self) -> WorldView {
        WorldView {
            components: components_map(self.components@),
            observers: self.observers@,
        }
    }
}

impl World {
    /// An empty store: no components, no observers.
    pub fn new() -> (w: World)
        ensures
            w@.components == Map::<(u64, u64), i64>::empty(),
            w@.observers == Seq::<ObserverEntry>::empty(),
    {
        World { components: Vec::new(), observers: Vec::new() }
    }

    /// Attach `value` to `entity` under `comp_id`, replacing any component
    /// of that kind already on the entity. Observers are untouched.
    pub fn insert_component(&mut self, entity: u64, comp_id: u64, value: i64)
        ensures
            final(self)@ == old(self)@.with_component(entity, comp_id, value),
    {
        let entry = ComponentEntry { entity, comp_id, value };
        proof {
            assert(self.components@.push(entry).drop_last() =~= self.components@);
        }
        self.components.push(entry);
        proof {
            assert(final(self)@ =~= old(self)@.with_component(entity, comp_id, value));
        }
    }

    /// Register `handler` as an observer of `event_kind` events targeted at
    /// `entity`. Components are untouched.
    pub fn add_observer(&mut self, entity: u64, event_kind: u64, handler: u64)
        ensures
            final(self)@ == old(self)@.with_observer(entity, event_kind, handler),
    {
        self.observers.push(ObserverEntry { entity, event_kind, handler });
        proof {
            assert(final(self)@ =~= old(self)@.with_observer(entity, event_kind, handler));
        }
    }

    /// The component of kind `comp_id` on `entity`, if any.
    pub fn get_component(&self, entity: u64, comp_id: u64) -> (r: Option<i64>)
        ensures
            r == self@.component(entity, comp_id),
    {
        let mut i: usize = self.components.len();
        proof {
            assert(self.components@.take(i as int) =~= self.components@);
        }
        while i > 0
            invariant
                i <= self.components.len(),
                lookup(self.components@, entity, comp_id) == lookup(
                    self.components@.take(i as int),
                    entity,
                    comp_id,
                ),
            decreases i,
        {
            let entry = self.components[i - 1];
            proof {
                assert(self.components@.take(i as int).last() == entry);
                assert(self.components@.take(i as int).drop_last() =~= self.components@.take(
                    i as int - 1,
                ));
            }
            if entry.entity == entity && entry.comp_id == comp_id {
                proof {
                    lemma_lookup_matches_map(self.components@, entity, comp_id);
                }
                return Some(entry.value);
            }
            i = i - 1;
        }
        proof {
            lemma_lookup_matches_map(self.components@, entity, comp_id);
        }
        None
    }

    /// The handlers that an event of kind `event_kind` targeted at `target`
    /// would reach, in registration order.
    pub fn fired_observers(&self, target: u64, event_kind: u64) -> (r: Vec<u64>)
        ensures
            r@ == fired(self@.observers, target, event_kind),
    {
        let mut r: Vec<u64> = Vec::new();
        let mut i: usize = 0;
        while i < self.observers.len()
            invariant
                i <= self.observers.len(),
                r@ == fired(self.observers@.take(i as int), target, event_kind),
            decreases self.observers.len() - i,
        {
            let entry = self.observers[i];
            proof {
                assert(self.observers@.take(i as int + 1).last() == entry);
                assert(self.observers@.take(i as int + 1).drop_last() =~= self.observers@.take(
                    i as int,
                ));
            }
            if entry.entity == target && entry.event_kind == event_kind {
                r.push(entry.handler);
            }
            i = i + 1;
        }
        proof {
            assert(self.observers@.take(self.observers@.len() as int) =~= self.observers@);
        }
        r
    }
}

} // verus!
