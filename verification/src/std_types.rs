//! Implementations of [`IsDefault`] for standard library types.

use vstd::prelude::*;

use crate::IsDefault;

verus! {

impl<T> IsDefault for Vec<T> {
    open spec fn is_default_spec(&self) -> bool {
        self@.len() == 0
    }

    open spec fn obeys_is_default_spec() -> bool {
        true
    }

    /// Returns `true` if `self` holds no elements.
    fn is_default(&self) -> (r: bool)
        ensures
            r == self.is_default_spec(),
    {
        self.len() == 0
    }
}

impl IsDefault for str {
    open spec fn is_default_spec(&self) -> bool {
        self@.len() == 0
    }

    open spec fn obeys_is_default_spec() -> bool {
        true
    }

    /// Returns `true` if `self` is the empty string.
    fn is_default(&self) -> (r: bool)
        ensures
            r == self.is_default_spec(),
    {
        self.is_empty()
    }
}

impl IsDefault for String {
    open spec fn is_default_spec(&self) -> bool {
        self@.len() == 0
    }

    open spec fn obeys_is_default_spec() -> bool {
        true
    }

    /// Returns `true` if `self` is the empty string.
    fn is_default(&self) -> (r: bool)
        ensures
            r == self.is_default_spec(),
    {
        self.as_str().is_empty()
    }
}

impl<T: IsDefault> IsDefault for Box<T> {
    open spec fn is_default_spec(&self) -> bool {
        (**self).is_default_spec()
    }

    open spec fn obeys_is_default_spec() -> bool {
        T::obeys_is_default_spec()
    }

    /// Delegates to the boxed value.
    fn is_default(&self) -> (r: bool)
        ensures
            Self::obeys_is_default_spec() ==> r == self.is_default_spec(),
    {
        (**self).is_default()
    }
}

impl<T: IsDefault> IsDefault for std::rc::Rc<T> {
    open spec fn is_default_spec(&self) -> bool {
        (**self).is_default_spec()
    }

    open spec fn obeys_is_default_spec() -> bool {
        T::obeys_is_default_spec()
    }

    /// Delegates to the shared value.
    fn is_default(&self) -> (r: bool)
        ensures
            Self::obeys_is_default_spec() ==> r == self.is_default_spec(),
    {
        (**self).is_default()
    }
}

impl<T: IsDefault> IsDefault for std::sync::Arc<T> {
    open spec fn is_default_spec(&self) -> bool {
        (**self).is_default_spec()
    }

    open spec fn obeys_is_default_spec() -> bool {
        T::obeys_is_default_spec()
    }

    /// Delegates to the shared value.
    fn is_default(&self) -> (r: bool)
        ensures
            Self::obeys_is_default_spec() ==> r == self.is_default_spec(),
    {
        (**self).is_default()
    }
}

impl<T> IsDefault for std::collections::VecDeque<T> {
    open spec fn is_default_spec(&self) -> bool {
        self@.len() == 0
    }

    open spec fn obeys_is_default_spec() -> bool {
        true
    }

    /// Returns `true` if `self` holds no elements.
    fn is_default(&self) -> (r: bool)
        ensures
            r == self.is_default_spec(),
    {
        broadcast use vstd::std_specs::vecdeque::axiom_spec_len;

        self.len() == 0
    }
}

impl<K, V> IsDefault for std::collections::BTreeMap<K, V> {
    open spec fn is_default_spec(&self) -> bool {
        self@.is_empty()
    }

    open spec fn obeys_is_default_spec() -> bool {
        true
    }

    /// Returns `true` if `self` holds no entries.
    fn is_default(&self) -> (r: bool)
        ensures
            r == self.is_default_spec(),
    {
        self.is_empty()
    }
}

impl<K> IsDefault for std::collections::BTreeSet<K> {
    open spec fn is_default_spec(&self) -> bool {
        self@.is_empty()
    }

    open spec fn obeys_is_default_spec() -> bool {
        true
    }

    /// Returns `true` if `self` holds no elements.
    fn is_default(&self) -> (r: bool)
        ensures
            r == self.is_default_spec(),
    {
        self.is_empty()
    }
}

impl<K, V> IsDefault for std::collections::HashMap<K, V> {
    open spec fn is_default_spec(&self) -> bool {
        self@.is_empty()
    }

    open spec fn obeys_is_default_spec() -> bool {
        true
    }

    /// Returns `true` if `self` holds no entries.
    fn is_default(&self) -> (r: bool)
        ensures
            r == self.is_default_spec(),
    {
        self.is_empty()
    }
}

impl<K> IsDefault for std::collections::HashSet<K> {
    open spec fn is_default_spec(&self) -> bool {
        self@.is_empty()
    }

    open spec fn obeys_is_default_spec() -> bool {
        true
    }

    /// Returns `true` if `self` holds no elements.
    fn is_default(&self) -> (r: bool)
        ensures
            r == self.is_default_spec(),
    {
        self.is_empty()
    }
}

impl<'a, T: IsDefault + Clone> IsDefault for std::borrow::Cow<'a, T> {
    open spec fn is_default_spec(&self) -> bool {
        match self {
            std::borrow::Cow::Borrowed(b) => b.is_default_spec(),
            std::borrow::Cow::Owned(o) => o.is_default_spec(),
        }
    }

    open spec fn obeys_is_default_spec() -> bool {
        T::obeys_is_default_spec()
    }

    /// Delegates to the currently held value, borrowed or owned.
    fn is_default(&self) -> (r: bool)
        ensures
            Self::obeys_is_default_spec() ==> r == self.is_default_spec(),
    {
        match self {
            std::borrow::Cow::Borrowed(b) => b.is_default(),
            std::borrow::Cow::Owned(o) => o.is_default(),
        }
    }
}

impl<'a, T: IsDefault + Clone> IsDefault for std::borrow::Cow<'a, [T]> {
    open spec fn is_default_spec(&self) -> bool {
        match self {
            std::borrow::Cow::Borrowed(b) => (**b).is_default_spec(),
            std::borrow::Cow::Owned(v) => forall|i: int|
                0 <= i < v@.len() ==> v@[i].is_default_spec(),
        }
    }

    open spec fn obeys_is_default_spec() -> bool {
        T::obeys_is_default_spec()
    }

    /// Delegates to the currently held slice, borrowed or owned: default
    /// exactly when every element is.
    fn is_default(&self) -> (r: bool)
        ensures
            Self::obeys_is_default_spec() ==> r == self.is_default_spec(),
    {
        match self {
            std::borrow::Cow::Borrowed(b) => (**b).is_default(),
            std::borrow::Cow::Owned(v) => v.as_slice().is_default(),
        }
    }
}

impl<'a> IsDefault for std::borrow::Cow<'a, str> {
    open spec fn is_default_spec(&self) -> bool {
        self@.len() == 0
    }

    open spec fn obeys_is_default_spec() -> bool {
        true
    }

    /// Delegates to the currently held string, borrowed or owned.
    fn is_default(&self) -> (r: bool)
        ensures
            r == self.is_default_spec(),
    {
        match self {
            std::borrow::Cow::Borrowed(b) => b.is_default(),
            std::borrow::Cow::Owned(o) => o.is_default(),
        }
    }
}

/// Declares `core::marker::PhantomPinned`, an opaque zero-sized marker.
#[verifier::external_type_specification]
#[verifier::external_body]
pub struct ExPhantomPinned(core::marker::PhantomPinned);

impl IsDefault for core::marker::PhantomPinned {
    open spec fn is_default_spec(&self) -> bool {
        true
    }

    open spec fn obeys_is_default_spec() -> bool {
        true
    }

    /// Always returns `true`: the type is a zero-sized marker with exactly
    /// one value.
    fn is_default(&self) -> (r: bool)
        ensures
            r == self.is_default_spec(),
    {
        true
    }
}

/// Declares `core::num::Wrapping` with its public field visible, so the
/// delegation to the wrapped integer is itself verified.
#[verifier::external_type_specification]
#[verifier::reject_recursive_types(T)]
pub struct ExWrapping<T>(core::num::Wrapping<T>);

impl<T: IsDefault> IsDefault for core::num::Wrapping<T> {
    open spec fn is_default_spec(&self) -> bool {
        self.0.is_default_spec()
    }

    open spec fn obeys_is_default_spec() -> bool {
        T::obeys_is_default_spec()
    }

    /// Delegates to the wrapped integer.
    fn is_default(&self) -> (r: bool)
        ensures
            Self::obeys_is_default_spec() ==> r == self.is_default_spec(),
    {
        self.0.is_default()
    }
}

/// Whether a duration spans no time at all: the result of
/// `Duration::is_zero`, a function of the duration value alone.
pub uninterp spec fn duration_is_zero(d: core::time::Duration) -> bool;

/// Relies on `Duration::is_zero`: true exactly when the duration is zero.
/// The duration itself is opaque here, so the result is given a name that
/// the implementation's own contract then speaks of.
pub assume_specification[ core::time::Duration::is_zero ](d: &core::time::Duration) -> (r: bool)
    ensures
        r == duration_is_zero(*d),
;

impl IsDefault for core::time::Duration {
    open spec fn is_default_spec(&self) -> bool {
        duration_is_zero(*self)
    }

    open spec fn obeys_is_default_spec() -> bool {
        true
    }

    /// Returns `true` if the duration is exactly zero.
    fn is_default(&self) -> (r: bool)
        ensures
            r == self.is_default_spec(),
    {
        self.is_zero()
    }
}

#[verifier::external_type_specification]
#[verifier::external_body]
#[verifier::reject_recursive_types(T)]
pub struct ExCursor<T>(std::io::Cursor<T>);

/// Relies on `std::io::Cursor::position`: returns the cursor's current
/// offset into its buffer.  No model of the offset is kept here, so nothing
/// is claimed of the result.
pub assume_specification<T>[ std::io::Cursor::<T>::position ](c: &std::io::Cursor<T>) -> u64;

impl<T> IsDefault for std::io::Cursor<T> {
    /// Returns `true` if the cursor's position is zero.  The buffer's
    /// contents are irrelevant.
    fn is_default(&self) -> (r: bool) {
        self.position() == 0
    }
}

/// The delegation rule: an owning pointer, a shared pointer (of either
/// flavour) and a borrow around a value are default exactly when the
/// value itself is.
pub proof fn lemma_pointer_delegation_law<T: IsDefault>(
    owned: Box<T>,
    shared: std::rc::Rc<T>,
    shared_atomic: std::sync::Arc<T>,
    borrowed: &T,
)
    ensures
        owned.is_default_spec() == (*owned).is_default_spec(),
        shared.is_default_spec() == (*shared).is_default_spec(),
        shared_atomic.is_default_spec() == (*shared_atomic).is_default_spec(),
        borrowed.is_default_spec() == (*borrowed).is_default_spec(),
{
}

} // verus!
