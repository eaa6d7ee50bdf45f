//! Deferred effect bundles for an entity-component store.
//!
//! An entity is composed by inserting a *bundle*: a value that carries, for
//! one entity, a (possibly empty) set of component payloads to splice into
//! storage, and an optional effect to run once splicing is complete. Two
//! effect bundles share this protocol: a deferred constructor, which computes
//! a component value from the live store and attaches it, and a deferred
//! observer, which registers an entity-scoped event handler. A scene
//! contract lets external types describe themselves as one such bundle.
//!
//! The protocol's central hazard is ownership across the phase boundary: the
//! wrapped payload must survive the splice phase intact and be consumed by
//! the effect phase exactly once. Here that transfer goes through an explicit
//! single-use slot, so the verifier checks that no payload is ever taken
//! twice or left behind.

pub mod bundle;
pub mod construct;
pub mod laws;
pub mod observe;
pub mod scene;
pub mod world;
