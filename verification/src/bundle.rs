//! The bundle-effect protocol: how a composite value is applied to one
//! entity in two phases.
//!
//! Phase one ("contribute") reports the component payloads the bundle
//! splices directly into storage and hands the bundle value forward intact,
//! since its interior payload must survive into phase two. Phase two
//! ("apply effect") consumes the bundle and runs its deferred action against
//! the entity now live in the store. The insertion driver guarantees the
//! ordering the protocol promises: every directly contributed component is
//! in storage before any effect runs, so an effect observes its siblings.
//!
//! Between the phases the bundle travels through an [`EffectSlot`], a
//! single-use ownership token: it is set exactly once and claimed exactly
//! once, so no payload is ever consumed twice or left behind.

use vstd::prelude::*;

use crate::world::World;
use crate::world::WorldView;

verus! {

/// A composite value that one insertion call applies to one entity.
///
/// `data_spec` is the data facet: the (component kind, value) pairs spliced
/// directly into storage during phase one. `effect_rel` is the effect facet:
/// how phase two, run once the entity is live, carries the store from one
/// state to the next. An effect that depends only on the bundle and the
/// store it observes is a functional relation; composite bundles chain the
/// relations of their parts.
pub trait Bundle: Sized {
    /// The component payloads this bundle contributes during phase one.
    spec fn data_spec(&self) -> Seq<(u64, i64)>;

    /// How this bundle's phase-two effect relates the store state it
    /// observes (`pre`) to the state it leaves behind (`post`).
    spec fn effect_rel(&self, entity: u64, pre: WorldView, post: WorldView) -> bool;

    /// Phase one: append this bundle's component payloads to `out`, and
    /// hand the bundle value forward intact for phase two.
    fn contribute(self, out: &mut Vec<(u64, i64)>) -> (kept: Self)
        ensures
            final(out)@ == old(out)@ + self.data_spec(),
            kept == self,
    ;

    /// Phase two: consume the bundle and run its effect against `entity`,
    /// already present in `world`.
    fn apply_effect(self, entity: u64, world: &mut World)
        ensures
            self.effect_rel(entity, old(world)@, final(world)@),
    ;
}

/// The store state after splicing `data` onto `entity`, first pair first.
pub open spec fn splice(w: WorldView, entity: u64, data: Seq<(u64, i64)>) -> WorldView
    decreases data.len(),
{
    if data.len() == 0 {
        w
    } else {
        splice(w.with_component(entity, data[0].0, data[0].1), entity, data.drop_first())
    }
}

/// What one insertion call does: the effect of `b` observes the store with
/// every directly contributed component already spliced, and its outcome is
/// the final store state.
pub open spec fn inserted<B: Bundle>(b: B, entity: u64, pre: WorldView, post: WorldView) -> bool {
    b.effect_rel(entity, splice(pre, entity, b.data_spec()), post)
}

/// The single-use ownership token that carries a bundle across the phase
/// boundary: filled exactly once, claimed exactly once. A claim empties the
/// slot, so a second claim has no standing.
pub struct EffectSlot<B> {
    inner: Option<B>,
}

impl<B> EffectSlot<B> {
    /// Whether the slot still holds its payload.
    pub closed spec fn is_filled(self) -> bool {
        self.inner is Some
    }

    /// The payload the slot was filled with.
    pub closed spec fn payload(self) -> B {
        self.inner->0
    }

    /// Fill a fresh slot with `payload`.
    pub fn fill(payload: B) -> (slot: Self)
        ensures
            slot.is_filled(),
            slot.payload() == payload,
    {
        EffectSlot { inner: Some(payload) }
    }

    /// Take the payload out. The slot is left empty, so the payload can be
    /// claimed at most once.
    pub fn claim(&mut self) -> (payload: B)
        requires
            old(self).is_filled(),
        ensures
            payload == old(self).payload(),
            !final(self).is_filled(),
    {
        self.inner.take().unwrap()
    }
}

impl World {
    /// One insertion call: apply `bundle` to `entity` in two phases.
    ///
    /// Phase one for the whole bundle completes, and storage reflects every
    /// directly contributed component, before any phase-two effect runs;
    /// the bundle itself crosses the phase boundary through a single-use
    /// [`EffectSlot`].
    pub fn insert<B: Bundle>(&mut self, entity: u64, bundle: B)
        ensures
            inserted(bundle, entity, old(self)@, final(self)@),
    {
        let ghost b = bundle;
        let ghost pre = self@;
        let mut data: Vec<(u64, i64)> = Vec::new();
        let kept = bundle.contribute(&mut data);
        let mut slot = EffectSlot::fill(kept);
        proof {
            assert(data@ =~= b.data_spec());
            assert(data@.skip(0) =~= data@);
        }
        let mut i: usize = 0;
        while i < data.len()
            invariant
                i <= data.len(),
                data@ == b.data_spec(),
                slot.is_filled(),
                slot.payload() == b,
                splice(pre, entity, data@) == splice(self@, entity, data@.skip(i as int)),
            decreases data.len() - i,
        {
            let d = data[i];
            proof {
                assert(data@.skip(i as int)[0] == d);
                assert(data@.skip(i as int).drop_first() =~= data@.skip(i as int + 1));
            }
            self.insert_component(entity, d.0, d.1);
            i = i + 1;
        }
        proof {
            assert(data@.skip(data@.len() as int) =~= Seq::<(u64, i64)>::empty());
            assert(self@ == splice(pre, entity, b.data_spec()));
        }
        let effect = slot.claim();
        effect.apply_effect(entity, self);
    }
}

/// A plain data bundle: one component payload, no deferred effect.
#[derive(Clone, Copy, PartialEq, Eq, Structural)]
pub struct DataBundle {
    pub comp_id: u64,
    pub value: i64,
}

impl Bundle for DataBundle {
    open spec fn data_spec(&self) -> Seq<(u64, i64)> {
        seq![(self.comp_id, self.value)]
    }

    open spec fn effect_rel(&self, entity: u64, pre: WorldView, post: WorldView) -> bool {
        post == pre
    }

    fn contribute(self, out: &mut Vec<(u64, i64)>) -> (kept: Self) {
        out.push((self.comp_id, self.value));
        proof {
            assert(out@ =~= old(out)@ + self.data_spec());
        }
        self
    }

    fn apply_effect(self, entity: u64, world: &mut World) {
    }
}

/// Two bundles composed into one insertion: both data facets are spliced
/// before either effect runs, then the effects run in declaration order,
/// `first` before `second`.
pub struct BundlePair<A, B> {
    pub first: A,
    pub second: B,
}

impl<A: Bundle, B: Bundle> Bundle for BundlePair<A, B> {
    open spec fn data_spec(&self) -> Seq<(u64, i64)> {
        self.first.data_spec() + self.second.data_spec()
    }

    open spec fn effect_rel(&self, entity: u64, pre: WorldView, post: WorldView) -> bool {
        exists|mid: WorldView|
            self.first.effect_rel(entity, pre, mid) && self.second.effect_rel(entity, mid, post)
    }

    fn contribute(self, out: &mut Vec<(u64, i64)>) -> (kept: Self) {
        let first = self.first.contribute(out);
        let second = self.second.contribute(out);
        proof {
            assert(out@ =~= old(out)@ + (first.data_spec() + second.data_spec()));
        }
        BundlePair { first, second }
    }

    fn apply_effect(self, entity: u64, world: &mut World) {
        let ghost pre = world@;
        let ghost a = self.first;
        let ghost b = self.second;
        self.first.apply_effect(entity, world);
        let ghost mid = world@;
        self.second.apply_effect(entity, world);
        proof {
            assert(a.effect_rel(entity, pre, mid) && b.effect_rel(entity, mid, world@));
        }
    }
}

} // verus!
