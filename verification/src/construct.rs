//! The deferred constructor bundle: a component whose value is computed
//! from the live store at insertion time.
//!
//! A [`ComponentFactory`] is the capability the constructor wraps: from a
//! read-only view of the store it computes one component value, and its
//! `value_of` spec pins the result down, so the insertion contract can say
//! exactly which value ends up on the entity. The factory observes the
//! store with every sibling component of the same insertion call already
//! spliced.

use vstd::prelude::*;

use crate::bundle::Bundle;
use crate::world::World;
use crate::world::WorldView;

verus! {

/// A function from a read-only store view to one component value.
///
/// Implementors supply the construction functions that deferred
/// constructor bundles wrap; `value_of` is the mathematical meaning of the
/// function and `compute` its executable body, tied together by contract.
pub trait ComponentFactory: Sized {
    /// The value this factory computes on a store in state `w`.
    spec fn value_of(&self, w: WorldView) -> i64;

    /// Compute the value from the live store. Read access only: at
    /// invocation time the entity is mid-insertion.
    fn compute(&self, world: &World) -> (value: i64)
        ensures
            value == self.value_of(world@),
    ;
}

/// A deferred constructor bundle: on application, evaluates `factory`
/// against the store and attaches the resulting component of kind
/// `comp_id` to the entity being constructed. Contributes no component at
/// splice time.
pub struct Construct<F: ComponentFactory> {
    pub comp_id: u64,
    pub factory: F,
}

impl<F: ComponentFactory> Bundle for Construct<F> {
    open spec fn data_spec(&self) -> Seq<(u64, i64)> {
        Seq::empty()
    }

    open spec fn effect_rel(&self, entity: u64, pre: WorldView, post: WorldView) -> bool {
        post == pre.with_component(entity, self.comp_id, self.factory.value_of(pre))
    }

    fn contribute(self, out: &mut Vec<(u64, i64)>) -> (kept: Self) {
        proof {
            assert(out@ =~= old(out)@ + self.data_spec());
        }
        self
    }

    fn apply_effect(self, entity: u64, world: &mut World) {
        let value = self.factory.compute(world);
        world.insert_component(entity, self.comp_id, value);
    }
}

/// The capability of a component kind to wrap a construction function in a
/// deferred constructor bundle: `comp_id_of` names the kind the computed
/// component is attached under.
pub trait ComponentConstruct<F: ComponentFactory>: Sized {
    /// The component kind the constructed bundle attaches its value under.
    spec fn comp_id_of(self) -> u64;

    /// Wrap `factory` in a deferred constructor bundle for this component
    /// kind.
    fn construct(self, factory: F) -> (bundle: Construct<F>)
        ensures
            bundle.comp_id == self.comp_id_of(),
            bundle.factory == factory,
    ;
}

impl<F: ComponentFactory> ComponentConstruct<F> for u64 {
    open spec fn comp_id_of(self) -> u64 {
        self
    }

    fn construct(self, factory: F) -> (bundle: Construct<F>) {
        Construct { comp_id: self, factory }
    }
}

/// A factory that ignores the store and returns a fixed value.
pub struct ConstFactory {
    pub value: i64,
}

impl ComponentFactory for ConstFactory {
    open spec fn value_of(&self, w: WorldView) -> i64 {
        self.value
    }

    fn compute(&self, world: &World) -> (value: i64) {
        self.value
    }
}

/// A factory that reads one component off the store: the component of kind
/// `comp_id` on `entity`, or `missing` when that entity has none.
pub struct ReadComponent {
    pub entity: u64,
    pub comp_id: u64,
    pub missing: i64,
}

impl ComponentFactory for ReadComponent {
    open spec fn value_of(&self, w: WorldView) -> i64 {
        match w.component(self.entity, self.comp_id) {
            Some(v) => v,
            None => self.missing,
        }
    }

    fn compute(&self, world: &World) -> (value: i64) {
        match world.get_component(self.entity, self.comp_id) {
            Some(v) => v,
            None => self.missing,
        }
    }
}

/// Whether `r` is the integer square root of `n`: the largest integer whose
/// square does not exceed `n`.
pub open spec fn is_isqrt(n: int, r: int) -> bool {
    0 <= r && r * r <= n && n < (r + 1) * (r + 1)
}

/// The integer square root of `n`.
pub open spec fn isqrt(n: int) -> int {
    choose|r: int| is_isqrt(n, r)
}

proof fn lemma_isqrt_unique(n: int, a: int, b: int)
    requires
        is_isqrt(n, a),
        is_isqrt(n, b),
    ensures
        a == b,
{
    if a < b {
        assert((a + 1) * (a + 1) <= b * b) by (nonlinear_arith)
            requires
                0 <= a,
                a + 1 <= b,
        ;
    }
    if b < a {
        assert((b + 1) * (b + 1) <= a * a) by (nonlinear_arith)
            requires
                0 <= b,
                b + 1 <= a,
        ;
    }
}

proof fn lemma_isqrt_value(n: int, r: int)
    requires
        is_isqrt(n, r),
    ensures
        isqrt(n) == r,
{
    assert(is_isqrt(n, isqrt(n))) by {
        assert(exists|q: int| is_isqrt(n, q)) by {
            assert(is_isqrt(n, r));
        }
    }
    lemma_isqrt_unique(n, isqrt(n), r);
}

/// Binary search for the integer square root. No bound on `s`: the initial
/// bracket covers the whole domain.
fn isqrt_u128(s: u128) -> (r: u128)
    ensures
        is_isqrt(s as int, r as int),
        r < 0x1_0000_0000_0000_0000u128,
{
    let mut lo: u128 = 0;
    let mut hi: u128 = 0x1_0000_0000_0000_0000u128;
    proof {
        assert((hi as int) * (hi as int) > s as int) by (nonlinear_arith)
            requires
                hi == 0x1_0000_0000_0000_0000u128,
                s <= u128::MAX,
        ;
    }
    while lo + 1 < hi
        invariant
            lo < hi,
            hi <= 0x1_0000_0000_0000_0000u128,
            (lo as int) * (lo as int) <= s as int,
            (s as int) < (hi as int) * (hi as int),
        decreases hi - lo,
    {
        let mid = lo + (hi - lo) / 2;
        proof {
            assert(lo < mid && mid < hi);
            assert((mid as int) * (mid as int) <= (0xFFFF_FFFF_FFFF_FFFFint)
                * (0xFFFF_FFFF_FFFF_FFFFint)) by (nonlinear_arith)
                requires
                    0 <= mid,
                    mid <= 0xFFFF_FFFF_FFFF_FFFFint,
            ;
        }
        if mid * mid <= s {
            lo = mid;
        } else {
            hi = mid;
        }
    }
    lo
}

/// The integer square root, clamped into the component value range.
pub open spec fn clamped_isqrt(n: int) -> i64 {
    let r = isqrt(n);
    if r < 0 {
        0
    } else if r > i64::MAX as int {
        i64::MAX
    } else {
        r as i64
    }
}

/// The coordinate a store state gives: the component of kind `comp_id` on
/// `entity`, or zero when absent.
pub open spec fn coord(w: WorldView, entity: u64, comp_id: u64) -> int {
    match w.component(entity, comp_id) {
        Some(v) => v as int,
        None => 0,
    }
}

/// A factory that computes an entity's distance from the origin: the
/// integer square root of `x*x + y*y`, where `x` and `y` are the
/// components of kinds `x_id` and `y_id` on `entity` (zero when absent),
/// clamped into the component value range.
pub struct DistanceFromOrigin {
    pub entity: u64,
    pub x_id: u64,
    pub y_id: u64,
}

impl ComponentFactory for DistanceFromOrigin {
    open spec fn value_of(&self, w: WorldView) -> i64 {
        let x = coord(w, self.entity, self.x_id);
        let y = coord(w, self.entity, self.y_id);
        clamped_isqrt(x * x + y * y)
    }

    fn compute(&self, world: &World) -> (value: i64) {
        let x: i64 = match world.get_component(self.entity, self.x_id) {
            Some(v) => v,
            None => 0,
        };
        let y: i64 = match world.get_component(self.entity, self.y_id) {
            Some(v) => v,
            None => 0,
        };
        proof {
            assert(0 <= (x as int) * (x as int)
                && (x as int) * (x as int) <= 0x4000_0000_0000_0000_0000_0000_0000_0000int)
                by (nonlinear_arith)
                requires
                    -0x8000_0000_0000_0000int <= x as int,
                    x as int <= 0x7FFF_FFFF_FFFF_FFFFint,
            ;
            assert(0 <= (y as int) * (y as int)
                && (y as int) * (y as int) <= 0x4000_0000_0000_0000_0000_0000_0000_0000int)
                by (nonlinear_arith)
                requires
                    -0x8000_0000_0000_0000int <= y as int,
                    y as int <= 0x7FFF_FFFF_FFFF_FFFFint,
            ;
        }
        let xs: u128 = (x as i128 * x as i128) as u128;
        let ys: u128 = (y as i128 * y as i128) as u128;
        let s: u128 = xs + ys;
        let r = isqrt_u128(s);
        proof {
            lemma_isqrt_value(s as int, r as int);
        }
        if r > 0x7FFF_FFFF_FFFF_FFFFu128 {
            i64::MAX
        } else {
            r as i64
        }
    }
}

} // verus!
