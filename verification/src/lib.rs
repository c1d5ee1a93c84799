//! A single capability, [`IsDefault`], that reports whether a value equals
//! the canonical default value of its type: zero for numbers, `false` for
//! booleans, empty for strings and containers, absent for optional values,
//! and so on.  It replaces scattered ad-hoc checks (`is_none`, `is_empty`,
//! comparison against a freshly constructed default) with one polymorphic
//! operation.
//!
//! Each implementation carries a specification: `is_default_spec` says what
//! "default" means for the type, and `obeys_is_default_spec` says whether
//! that meaning pins the runtime answer down.  For deterministic types the
//! answer is proved equal to the specification; for types whose answer
//! depends on runtime state outside the value itself (locks, atomics), the
//! flag is `false` and the method documents its behaviour instead.

use vstd::prelude::*;
use vstd::std_specs::cmp::PartialEqSpec;

mod core_types;
mod guarded_types;
pub mod shape;
mod std_types;
pub mod value;

verus! {

/// The capability: a value can report whether it equals its type's
/// canonical default value.
pub trait IsDefault {
    /// What "being default" means for this type.  Defaults to `false`,
    /// which claims nothing of an implementation that does not override
    /// it, since `obeys_is_default_spec` then defaults to `false` too.
    open spec fn is_default_spec(&self) -> bool {
        false
    }

    /// Whether `is_default` is pinned down by `is_default_spec`.
    ///
    /// This is `false` for types whose answer depends on state outside
    /// the value itself, such as a lock's contention or an atomic read,
    /// and for implementations that provide no specification.
    open spec fn obeys_is_default_spec() -> bool {
        false
    }

    /// Returns `true` if `self` is equal to the default value for its type.
    fn is_default(&self) -> (r: bool)
        ensures
            Self::obeys_is_default_spec() ==> r == self.is_default_spec(),
    ;
}

/// The global fallback: decides defaultness for any type that supports
/// constructing its own default value and comparing two instances for
/// equality, by constructing a throwaway default instance and comparing
/// the receiver against it.  This trades an extra construction for
/// needing no tailored implementation.
pub fn is_default_via_eq<T: core::default::Default + PartialEq>(v: &T) -> (r: bool)
    ensures
        T::obeys_eq_spec() ==> exists|d: T|
            #[trigger] call_ensures(T::default, (), d) && r == v.eq_spec(&d),
{
    let d = T::default();
    *v == d
}

/// The check is idempotent: two calls on an unmutated value return the same
/// answer, since each is pinned to the same specification.
pub proof fn lemma_is_default_idempotent<T: IsDefault>(v: &T, first: bool, second: bool)
    requires
        T::obeys_is_default_spec(),
        first == v.is_default_spec(),
        second == v.is_default_spec(),
    ensures
        first == second,
{
}

} // verus!
