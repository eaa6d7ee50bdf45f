//! The protocol's guarantees, stated and proved over the abstract store.
//!
//! Each law quantifies over bundle values and store states and is proved
//! from the contracts of the insertion call and the bundle
//! implementations, so it holds of every insertion the library performs.

use vstd::prelude::*;

use crate::bundle::Bundle;
use crate::bundle::BundlePair;
use crate::bundle::DataBundle;
use crate::bundle::inserted;
use crate::bundle::splice;
use crate::construct::ComponentFactory;
use crate::construct::Construct;
use crate::construct::ReadComponent;
use crate::observe::AddObserver;
use crate::world::ObserverEntry;
use crate::world::WorldView;
use crate::world::fired;

verus! {

/// Exactly-once effect: inserting one deferred constructor bundle
/// evaluates its factory once, against the store state of that call, and
/// leaves the computed component on the target entity as that entity's one
/// component of that kind. Nothing else changes: no other component and no
/// observer registration is touched.
pub proof fn lemma_construct_exactly_once<F: ComponentFactory>(
    c: Construct<F>,
    entity: u64,
    pre: WorldView,
    post: WorldView,
)
    requires
        inserted(c, entity, pre, post),
    ensures
        post.components == pre.components.insert((entity, c.comp_id), c.factory.value_of(pre)),
        post.component(entity, c.comp_id) == Some(c.factory.value_of(pre)),
        post.observers == pre.observers,
{
    assert(c.data_spec() =~= Seq::<(u64, i64)>::empty());
}

/// Visibility ordering: a deferred constructor inserted in the same call
/// as a plain data bundle evaluates its factory against the store with the
/// sibling component already spliced, and the final store holds both.
pub proof fn lemma_visibility_ordering<F: ComponentFactory>(
    data: DataBundle,
    c: Construct<F>,
    entity: u64,
    pre: WorldView,
    post: WorldView,
)
    requires
        inserted(BundlePair { first: data, second: c }, entity, pre, post),
    ensures
        ({
            let mid = pre.with_component(entity, data.comp_id, data.value);
            post == mid.with_component(entity, c.comp_id, c.factory.value_of(mid))
        }),
{
    let pair = BundlePair { first: data, second: c };
    let mid = pre.with_component(entity, data.comp_id, data.value);
    let s = pair.data_spec();
    assert(s =~= seq![(data.comp_id, data.value)]);
    assert(s[0] == (data.comp_id, data.value));
    assert(s.drop_first() =~= Seq::<(u64, i64)>::empty());
    assert(splice(pre, entity, s) == splice(mid, entity, s.drop_first()));
    assert(splice(mid, entity, s.drop_first()) == mid);
    let m = choose|m: WorldView|
        data.effect_rel(entity, mid, m) && c.effect_rel(entity, m, post);
    assert(m == mid);
}

/// The sibling's value is what the constructor sees: when the factory
/// reads the very component the sibling data bundle contributes, the
/// computed component equals the sibling's value.
pub proof fn lemma_sibling_value_seen(
    data: DataBundle,
    c: Construct<ReadComponent>,
    entity: u64,
    pre: WorldView,
    post: WorldView,
)
    requires
        inserted(BundlePair { first: data, second: c }, entity, pre, post),
        c.factory.entity == entity,
        c.factory.comp_id == data.comp_id,
        c.comp_id != data.comp_id,
    ensures
        post.component(entity, c.comp_id) == Some(data.value),
{
    lemma_visibility_ordering(data, c, entity, pre, post);
}

/// Declaration order: two deferred constructors composed into one
/// insertion call run their effects first-to-second, each exactly once.
/// The first evaluates its factory against the store state of the call;
/// the second observes the first's component already attached.
pub proof fn lemma_constructors_run_in_declaration_order<F1: ComponentFactory, F2: ComponentFactory>(
    pair: BundlePair<Construct<F1>, Construct<F2>>,
    entity: u64,
    pre: WorldView,
    post: WorldView,
)
    requires
        inserted(pair, entity, pre, post),
    ensures
        ({
            let mid = pre.with_component(entity, pair.first.comp_id, pair.first.factory.value_of(pre));
            post == mid.with_component(entity, pair.second.comp_id, pair.second.factory.value_of(mid))
        }),
{
    assert(pair.data_spec() =~= Seq::<(u64, i64)>::empty());
}

/// Observer scoping: inserting a deferred observer bundle on one entity
/// adds its handler to exactly the events of the bound kind targeted at
/// that entity. Events targeted at any other entity, and events of any
/// other kind, reach exactly the handlers they reached before.
pub proof fn lemma_observer_scoping(
    o: AddObserver,
    entity: u64,
    target: u64,
    event_kind: u64,
    pre: WorldView,
    post: WorldView,
)
    requires
        inserted(o, entity, pre, post),
    ensures
        fired(post.observers, entity, o.event_kind) == fired(
            pre.observers,
            entity,
            o.event_kind,
        ).push(o.handler),
        target != entity ==> fired(post.observers, target, event_kind) == fired(
            pre.observers,
            target,
            event_kind,
        ),
        event_kind != o.event_kind ==> fired(post.observers, target, event_kind) == fired(
            pre.observers,
            target,
            event_kind,
        ),
{
    assert(o.data_spec() =~= Seq::<(u64, i64)>::empty());
    let entry = ObserverEntry { entity, event_kind: o.event_kind, handler: o.handler };
    assert(post.observers == pre.observers.push(entry));
    assert(pre.observers.push(entry).drop_last() =~= pre.observers);
}

/// Scene contract transparency: the outcome of one insertion call is a
/// function of the bundle value, the entity and the prior store state
/// alone. A constructor/observer pair inserted through any scene builder
/// (whose `build` returns exactly that pair) therefore leaves the store in
/// the same state as inserting the pair directly.
pub proof fn lemma_scene_transparency<F: ComponentFactory>(
    pair: BundlePair<Construct<F>, AddObserver>,
    entity: u64,
    pre: WorldView,
    post_direct: WorldView,
    post_built: WorldView,
)
    requires
        inserted(pair, entity, pre, post_direct),
        inserted(pair, entity, pre, post_built),
    ensures
        post_direct == post_built,
{
    assert(pair.data_spec() =~= Seq::<(u64, i64)>::empty());
    let mid = splice(pre, entity, pair.data_spec());
    assert(mid == pre);
    let m1 = choose|m: WorldView|
        pair.first.effect_rel(entity, pre, m) && pair.second.effect_rel(entity, m, post_direct);
    let m2 = choose|m: WorldView|
        pair.first.effect_rel(entity, pre, m) && pair.second.effect_rel(entity, m, post_built);
    assert(m1 == pre.with_component(entity, pair.first.comp_id, pair.first.factory.value_of(pre)));
    assert(m2 == pre.with_component(entity, pair.first.comp_id, pair.first.factory.value_of(pre)));
}

} // verus!
