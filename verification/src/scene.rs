//! The composable scene contract: a capability any type may implement to
//! say "compose me into an entity by producing this bundle."
//!
//! The contract adds no mechanism of its own: it consumes `self`, produces
//! one bundle, and the insertion call does the rest. Its one obligation is
//! transparency: `build` returns exactly the bundle `scene_spec` names, so
//! inserting through a scene leaves the store as inserting that bundle
//! directly would.

use vstd::prelude::*;

use crate::bundle::Bundle;
use crate::bundle::BundlePair;
use crate::construct::ComponentFactory;
use crate::construct::Construct;
use crate::observe::AddObserver;

verus! {

/// The capability to describe oneself as one bundle. Single use: `build`
/// consumes the scene and produces the bundle `scene_spec` names.
pub trait SceneBuilder: Sized {
    /// The bundle type this scene composes into.
    type Output: Bundle;

    /// The bundle this scene stands for.
    spec fn scene_spec(self) -> Self::Output;

    /// Produce the bundle. Consumes the scene; the result is exactly the
    /// bundle `scene_spec` names, so the scene is transparent to insertion.
    fn build(self) -> (bundle: Self::Output)
        ensures
            bundle == self.scene_spec(),
    ;
}

/// A scene that pairs one deferred constructor with one deferred observer:
/// the entity gets a computed component of kind `comp_id` and an observer
/// of `event_kind` events, in one insertion call.
pub struct EffectScene<F: ComponentFactory> {
    pub comp_id: u64,
    pub factory: F,
    pub event_kind: u64,
    pub handler: u64,
}

impl<F: ComponentFactory> SceneBuilder for EffectScene<F> {
    type Output = BundlePair<Construct<F>, AddObserver>;

    open spec fn scene_spec(self) -> BundlePair<Construct<F>, AddObserver> {
        BundlePair {
            first: Construct { comp_id: self.comp_id, factory: self.factory },
            second: AddObserver { event_kind: self.event_kind, handler: self.handler },
        }
    }

    fn build(self) -> (bundle: BundlePair<Construct<F>, AddObserver>) {
        BundlePair {
            first: Construct { comp_id: self.comp_id, factory: self.factory },
            second: AddObserver { event_kind: self.event_kind, handler: self.handler },
        }
    }
}

} // verus!
