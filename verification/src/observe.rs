//! The deferred observer bundle: an event handler registered as a side
//! effect of insertion.
//!
//! On application the bundle registers its handler as an entity-scoped
//! observer: the handler fires only for events of the bound kind targeted
//! at the entity the bundle was inserted on. Scheduling of the handler once
//! registered is the store's affair; this bundle covers registration only.

use vstd::prelude::*;

use crate::bundle::Bundle;
use crate::world::World;
use crate::world::WorldView;

verus! {

/// A deferred observer bundle: on application, registers `handler` as an
/// observer of `event_kind` events targeted at the entity being
/// constructed. Contributes no component at splice time.
#[derive(Clone, Copy, PartialEq, Eq, Structural)]
pub struct AddObserver {
    pub event_kind: u64,
    pub handler: u64,
}

impl Bundle for AddObserver {
    open spec fn data_spec(&self) -> Seq<(u64, i64)> {
        Seq::empty()
    }

    open spec fn effect_rel(&self, entity: u64, pre: WorldView, post: WorldView) -> bool {
        post == pre.with_observer(entity, self.event_kind, self.handler)
    }

    fn contribute(self, out: &mut Vec<(u64, i64)>) -> (kept: Self) {
        proof {
            assert(out@ =~= old(out)@ + self.data_spec());
        }
        self
    }

    fn apply_effect(self, entity: u64, world: &mut World) {
        world.add_observer(entity, self.event_kind, self.handler);
    }
}

/// Wrap `handler` in a bundle that, when inserted on an entity, registers
/// it as an observer of `event_kind` events targeted at that entity.
pub fn observe(event_kind: u64, handler: u64) -> (bundle: AddObserver)
    ensures
        bundle == (AddObserver { event_kind, handler }),
{
    AddObserver { event_kind, handler }
}

} // verus!
