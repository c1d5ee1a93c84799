//! Implementations of [`IsDefault`] for the primitive types of the language:
//! integers, `bool`, `char`, the unit type, tuples, options, references,
//! slices and arrays.

use vstd::prelude::*;

use crate::IsDefault;

verus! {

impl IsDefault for bool {
    open spec fn is_default_spec(&self) -> bool {
        *self == false
    }

    open spec fn obeys_is_default_spec() -> bool {
        true
    }

    /// Returns `true` if `self` is `false`.
    fn is_default(&self) -> (r: bool)
        ensures
            r == self.is_default_spec(),
    {
        !*self
    }
}

impl IsDefault for char {
    open spec fn is_default_spec(&self) -> bool {
        *self == '\x00'
    }

    open spec fn obeys_is_default_spec() -> bool {
        true
    }

    /// Returns `true` if `self` is the null code point.
    fn is_default(&self) -> (r: bool)
        ensures
            r == self.is_default_spec(),
    {
        *self == '\x00'
    }
}

impl IsDefault for usize {
    open spec fn is_default_spec(&self) -> bool {
        *self == 0
    }

    open spec fn obeys_is_default_spec() -> bool {
        true
    }

    /// Returns `true` if `self` is zero.
    fn is_default(&self) -> (r: bool)
        ensures
            r == self.is_default_spec(),
    {
        *self == 0
    }
}

impl IsDefault for u8 {
    open spec fn is_default_spec(&self) -> bool {
        *self == 0
    }

    open spec fn obeys_is_default_spec() -> bool {
        true
    }

    /// Returns `true` if `self` is zero.
    fn is_default(&self) -> (r: bool)
        ensures
            r == self.is_default_spec(),
    {
        *self == 0
    }
}

impl IsDefault for u16 {
    open spec fn is_default_spec(&self) -> bool {
        *self == 0
    }

    open spec fn obeys_is_default_spec() -> bool {
        true
    }

    /// Returns `true` if `self` is zero.
    fn is_default(&self) -> (r: bool)
        ensures
            r == self.is_default_spec(),
    {
        *self == 0
    }
}

impl IsDefault for u32 {
    open spec fn is_default_spec(&self) -> bool {
        *self == 0
    }

    open spec fn obeys_is_default_spec() -> bool {
        true
    }

    /// Returns `true` if `self` is zero.
    fn is_default(&self) -> (r: bool)
        ensures
            r == self.is_default_spec(),
    {
        *self == 0
    }
}

impl IsDefault for u64 {
    open spec fn is_default_spec(&self) -> bool {
        *self == 0
    }

    open spec fn obeys_is_default_spec() -> bool {
        true
    }

    /// Returns `true` if `self` is zero.
    fn is_default(&self) -> (r: bool)
        ensures
            r == self.is_default_spec(),
    {
        *self == 0
    }
}

impl IsDefault for u128 {
    open spec fn is_default_spec(&self) -> bool {
        *self == 0
    }

    open spec fn obeys_is_default_spec() -> bool {
        true
    }

    /// Returns `true` if `self` is zero.
    fn is_default(&self) -> (r: bool)
        ensures
            r == self.is_default_spec(),
    {
        *self == 0
    }
}

impl IsDefault for isize {
    open spec fn is_default_spec(&self) -> bool {
        *self == 0
    }

    open spec fn obeys_is_default_spec() -> bool {
        true
    }

    /// Returns `true` if `self` is zero.
    fn is_default(&self) -> (r: bool)
        ensures
            r == self.is_default_spec(),
    {
        *self == 0
    }
}

impl IsDefault for i8 {
    open spec fn is_default_spec(&self) -> bool {
        *self == 0
    }

    open spec fn obeys_is_default_spec() -> bool {
        true
    }

    /// Returns `true` if `self` is zero.
    fn is_default(&self) -> (r: bool)
        ensures
            r == self.is_default_spec(),
    {
        *self == 0
    }
}

impl IsDefault for i16 {
    open spec fn is_default_spec(&self) -> bool {
        *self == 0
    }

    open spec fn obeys_is_default_spec() -> bool {
        true
    }

    /// Returns `true` if `self` is zero.
    fn is_default(&self) -> (r: bool)
        ensures
            r == self.is_default_spec(),
    {
        *self == 0
    }
}

impl IsDefault for i32 {
    open spec fn is_default_spec(&self) -> bool {
        *self == 0
    }

    open spec fn obeys_is_default_spec() -> bool {
        true
    }

    /// Returns `true` if `self` is zero.
    fn is_default(&self) -> (r: bool)
        ensures
            r == self.is_default_spec(),
    {
        *self == 0
    }
}

impl IsDefault for i64 {
    open spec fn is_default_spec(&self) -> bool {
        *self == 0
    }

    open spec fn obeys_is_default_spec() -> bool {
        true
    }

    /// Returns `true` if `self` is zero.
    fn is_default(&self) -> (r: bool)
        ensures
            r == self.is_default_spec(),
    {
        *self == 0
    }
}

impl IsDefault for i128 {
    open spec fn is_default_spec(&self) -> bool {
        *self == 0
    }

    open spec fn obeys_is_default_spec() -> bool {
        true
    }

    /// Returns `true` if `self` is zero.
    fn is_default(&self) -> (r: bool)
        ensures
            r == self.is_default_spec(),
    {
        *self == 0
    }
}

impl IsDefault for () {
    open spec fn is_default_spec(&self) -> bool {
        true
    }

    open spec fn obeys_is_default_spec() -> bool {
        true
    }

    /// Always returns `true`: the unit type has exactly one value.
    fn is_default(&self) -> (r: bool)
        ensures
            r == self.is_default_spec(),
    {
        true
    }
}

impl<T> IsDefault for Option<T> {
    open spec fn is_default_spec(&self) -> bool {
        self is None
    }

    open spec fn obeys_is_default_spec() -> bool {
        true
    }

    /// Returns `true` if `self` holds no value.  The contained value of a
    /// `Some` is not inspected.
    fn is_default(&self) -> (r: bool)
        ensures
            r == self.is_default_spec(),
    {
        self.is_none()
    }
}

impl<T: IsDefault + ?Sized> IsDefault for &T {
    open spec fn is_default_spec(&self) -> bool {
        (**self).is_default_spec()
    }

    open spec fn obeys_is_default_spec() -> bool {
        T::obeys_is_default_spec()
    }

    /// Delegates to the referent: a borrow is default exactly when the
    /// value it points to is.
    fn is_default(&self) -> (r: bool)
        ensures
            Self::obeys_is_default_spec() ==> r == self.is_default_spec(),
    {
        (**self).is_default()
    }
}

impl<A: IsDefault> IsDefault for (A,) {
    open spec fn is_default_spec(&self) -> bool {
        self.0.is_default_spec()
    }

    open spec fn obeys_is_default_spec() -> bool {
        A::obeys_is_default_spec()
    }

    /// Returns `true` if the single component is default.
    fn is_default(&self) -> (r: bool)
        ensures
            Self::obeys_is_default_spec() ==> r == self.is_default_spec(),
    {
        self.0.is_default()
    }
}

impl<A: IsDefault, B: IsDefault> IsDefault for (A, B) {
    open spec fn is_default_spec(&self) -> bool {
        self.0.is_default_spec() && self.1.is_default_spec()
    }

    open spec fn obeys_is_default_spec() -> bool {
        A::obeys_is_default_spec() && B::obeys_is_default_spec()
    }

    /// Returns `true` if every component is default.
    fn is_default(&self) -> (r: bool)
        ensures
            Self::obeys_is_default_spec() ==> r == self.is_default_spec(),
    {
        self.0.is_default() && self.1.is_default()
    }
}

impl<T: IsDefault + ?Sized> IsDefault for &mut T {
    open spec fn is_default_spec(&self) -> bool {
        (**self).is_default_spec()
    }

    open spec fn obeys_is_default_spec() -> bool {
        T::obeys_is_default_spec()
    }

    /// Delegates to the referent: a borrow is default exactly when the
    /// value it points to is.
    fn is_default(&self) -> (r: bool)
        ensures
            Self::obeys_is_default_spec() ==> r == self.is_default_spec(),
    {
        (**self).is_default()
    }
}

impl<T: IsDefault, const N: usize> IsDefault for [T; N] {
    open spec fn is_default_spec(&self) -> bool {
        forall|i: int| 0 <= i < N ==> self[i].is_default_spec()
    }

    open spec fn obeys_is_default_spec() -> bool {
        T::obeys_is_default_spec()
    }

    /// Returns `true` if every element is default; an empty array is
    /// always default.
    fn is_default(&self) -> (r: bool)
        ensures
            Self::obeys_is_default_spec() ==> r == self.is_default_spec(),
    {
        let mut i: usize = 0;
        while i < N
            invariant
                i <= N,
                T::obeys_is_default_spec() ==> forall|j: int| 0 <= j < i ==> self[j].is_default_spec(),
            decreases N - i,
        {
            if !self[i].is_default() {
                return false;
            }
            i += 1;
        }
        true
    }
}

impl<T: IsDefault> IsDefault for [T] {
    open spec fn is_default_spec(&self) -> bool {
        forall|i: int| 0 <= i < self@.len() ==> self[i].is_default_spec()
    }

    open spec fn obeys_is_default_spec() -> bool {
        T::obeys_is_default_spec()
    }

    /// Returns `true` if every element is default; an empty slice is
    /// always default.
    fn is_default(&self) -> (r: bool)
        ensures
            Self::obeys_is_default_spec() ==> r == self.is_default_spec(),
    {
        let mut i: usize = 0;
        while i < self.len()
            invariant
                i <= self@.len(),
                T::obeys_is_default_spec() ==> forall|j: int| 0 <= j < i ==> self[j].is_default_spec(),
            decreases self@.len() - i,
        {
            if !self[i].is_default() {
                return false;
            }
            i += 1;
        }
        true
    }
}

impl<A: IsDefault, B: IsDefault, C: IsDefault> IsDefault for (A, B, C) {
    open spec fn is_default_spec(&self) -> bool {
        self.0.is_default_spec() && self.1.is_default_spec() && self.2.is_default_spec()
    }

    open spec fn obeys_is_default_spec() -> bool {
        A::obeys_is_default_spec() && B::obeys_is_default_spec() && C::obeys_is_default_spec()
    }

    /// Returns `true` if every component is default.
    fn is_default(&self) -> (r: bool)
        ensures
            Self::obeys_is_default_spec() ==> r == self.is_default_spec(),
    {
        self.0.is_default() && self.1.is_default() && self.2.is_default()
    }
}

impl<A: IsDefault, B: IsDefault, C: IsDefault, D: IsDefault> IsDefault for (A, B, C, D) {
    open spec fn is_default_spec(&self) -> bool {
        self.0.is_default_spec() && self.1.is_default_spec() && self.2.is_default_spec() && self.3.is_default_spec()
    }

    open spec fn obeys_is_default_spec() -> bool {
        A::obeys_is_default_spec() && B::obeys_is_default_spec() && C::obeys_is_default_spec() && D::obeys_is_default_spec()
    }

    /// Returns `true` if every component is default.
    fn is_default(&self) -> (r: bool)
        ensures
            Self::obeys_is_default_spec() ==> r == self.is_default_spec(),
    {
        self.0.is_default() && self.1.is_default() && self.2.is_default() && self.3.is_default()
    }
}

impl<A: IsDefault, B: IsDefault, C: IsDefault, D: IsDefault, E: IsDefault> IsDefault for (A, B, C, D, E) {
    open spec fn is_default_spec(&self) -> bool {
        self.0.is_default_spec() && self.1.is_default_spec() && self.2.is_default_spec() && self.3.is_default_spec() && self.4.is_default_spec()
    }

    open spec fn obeys_is_default_spec() -> bool {
        A::obeys_is_default_spec() && B::obeys_is_default_spec() && C::obeys_is_default_spec() && D::obeys_is_default_spec() && E::obeys_is_default_spec()
    }

    /// Returns `true` if every component is default.
    fn is_default(&self) -> (r: bool)
        ensures
            Self::obeys_is_default_spec() ==> r == self.is_default_spec(),
    {
        self.0.is_default() && self.1.is_default() && self.2.is_default() && self.3.is_default() && self.4.is_default()
    }
}

impl<A: IsDefault, B: IsDefault, C: IsDefault, D: IsDefault, E: IsDefault, F: IsDefault> IsDefault for (A, B, C, D, E, F) {
    open spec fn is_default_spec(&self) -> bool {
        self.0.is_default_spec() && self.1.is_default_spec() && self.2.is_default_spec() && self.3.is_default_spec() && self.4.is_default_spec() && self.5.is_default_spec()
    }

    open spec fn obeys_is_default_spec() -> bool {
        A::obeys_is_default_spec() && B::obeys_is_default_spec() && C::obeys_is_default_spec() && D::obeys_is_default_spec() && E::obeys_is_default_spec() && F::obeys_is_default_spec()
    }

    /// Returns `true` if every component is default.
    fn is_default(&self) -> (r: bool)
        ensures
            Self::obeys_is_default_spec() ==> r == self.is_default_spec(),
    {
        self.0.is_default() && self.1.is_default() && self.2.is_default() && self.3.is_default() && self.4.is_default() && self.5.is_default()
    }
}

impl<A: IsDefault, B: IsDefault, C: IsDefault, D: IsDefault, E: IsDefault, F: IsDefault, G: IsDefault> IsDefault for (A, B, C, D, E, F, G) {
    open spec fn is_default_spec(&self) -> bool {
        self.0.is_default_spec() && self.1.is_default_spec() && self.2.is_default_spec() && self.3.is_default_spec() && self.4.is_default_spec() && self.5.is_default_spec() && self.6.is_default_spec()
    }

    open spec fn obeys_is_default_spec() -> bool {
        A::obeys_is_default_spec() && B::obeys_is_default_spec() && C::obeys_is_default_spec() && D::obeys_is_default_spec() && E::obeys_is_default_spec() && F::obeys_is_default_spec() && G::obeys_is_default_spec()
    }

    /// Returns `true` if every component is default.
    fn is_default(&self) -> (r: bool)
        ensures
            Self::obeys_is_default_spec() ==> r == self.is_default_spec(),
    {
        self.0.is_default() && self.1.is_default() && self.2.is_default() && self.3.is_default() && self.4.is_default() && self.5.is_default() && self.6.is_default()
    }
}

impl<A: IsDefault, B: IsDefault, C: IsDefault, D: IsDefault, E: IsDefault, F: IsDefault, G: IsDefault, H: IsDefault> IsDefault for (A, B, C, D, E, F, G, H) {
    open spec fn is_default_spec(&self) -> bool {
        self.0.is_default_spec() && self.1.is_default_spec() && self.2.is_default_spec() && self.3.is_default_spec() && self.4.is_default_spec() && self.5.is_default_spec() && self.6.is_default_spec() && self.7.is_default_spec()
    }

    open spec fn obeys_is_default_spec() -> bool {
        A::obeys_is_default_spec() && B::obeys_is_default_spec() && C::obeys_is_default_spec() && D::obeys_is_default_spec() && E::obeys_is_default_spec() && F::obeys_is_default_spec() && G::obeys_is_default_spec() && H::obeys_is_default_spec()
    }

    /// Returns `true` if every component is default.
    fn is_default(&self) -> (r: bool)
        ensures
            Self::obeys_is_default_spec() ==> r == self.is_default_spec(),
    {
        self.0.is_default() && self.1.is_default() && self.2.is_default() && self.3.is_default() && self.4.is_default() && self.5.is_default() && self.6.is_default() && self.7.is_default()
    }
}

impl<A: IsDefault, B: IsDefault, C: IsDefault, D: IsDefault, E: IsDefault, F: IsDefault, G: IsDefault, H: IsDefault, I: IsDefault> IsDefault for (A, B, C, D, E, F, G, H, I) {
    open spec fn is_default_spec(&self) -> bool {
        self.0.is_default_spec() && self.1.is_default_spec() && self.2.is_default_spec() && self.3.is_default_spec() && self.4.is_default_spec() && self.5.is_default_spec() && self.6.is_default_spec() && self.7.is_default_spec() && self.8.is_default_spec()
    }

    open spec fn obeys_is_default_spec() -> bool {
        A::obeys_is_default_spec() && B::obeys_is_default_spec() && C::obeys_is_default_spec() && D::obeys_is_default_spec() && E::obeys_is_default_spec() && F::obeys_is_default_spec() && G::obeys_is_default_spec() && H::obeys_is_default_spec() && I::obeys_is_default_spec()
    }

    /// Returns `true` if every component is default.
    fn is_default(&self) -> (r: bool)
        ensures
            Self::obeys_is_default_spec() ==> r == self.is_default_spec(),
    {
        self.0.is_default() && self.1.is_default() && self.2.is_default() && self.3.is_default() && self.4.is_default() && self.5.is_default() && self.6.is_default() && self.7.is_default() && self.8.is_default()
    }
}

impl<A: IsDefault, B: IsDefault, C: IsDefault, D: IsDefault, E: IsDefault, F: IsDefault, G: IsDefault, H: IsDefault, I: IsDefault, J: IsDefault> IsDefault for (A, B, C, D, E, F, G, H, I, J) {
    open spec fn is_default_spec(&self) -> bool {
        self.0.is_default_spec() && self.1.is_default_spec() && self.2.is_default_spec() && self.3.is_default_spec() && self.4.is_default_spec() && self.5.is_default_spec() && self.6.is_default_spec() && self.7.is_default_spec() && self.8.is_default_spec() && self.9.is_default_spec()
    }

    open spec fn obeys_is_default_spec() -> bool {
        A::obeys_is_default_spec() && B::obeys_is_default_spec() && C::obeys_is_default_spec() && D::obeys_is_default_spec() && E::obeys_is_default_spec() && F::obeys_is_default_spec() && G::obeys_is_default_spec() && H::obeys_is_default_spec() && I::obeys_is_default_spec() && J::obeys_is_default_spec()
    }

    /// Returns `true` if every component is default.
    fn is_default(&self) -> (r: bool)
        ensures
            Self::obeys_is_default_spec() ==> r == self.is_default_spec(),
    {
        self.0.is_default() && self.1.is_default() && self.2.is_default() && self.3.is_default() && self.4.is_default() && self.5.is_default() && self.6.is_default() && self.7.is_default() && self.8.is_default() && self.9.is_default()
    }
}

impl<A: IsDefault, B: IsDefault, C: IsDefault, D: IsDefault, E: IsDefault, F: IsDefault, G: IsDefault, H: IsDefault, I: IsDefault, J: IsDefault, K: IsDefault> IsDefault for (A, B, C, D, E, F, G, H, I, J, K) {
    open spec fn is_default_spec(&self) -> bool {
        self.0.is_default_spec() && self.1.is_default_spec() && self.2.is_default_spec() && self.3.is_default_spec() && self.4.is_default_spec() && self.5.is_default_spec() && self.6.is_default_spec() && self.7.is_default_spec() && self.8.is_default_spec() && self.9.is_default_spec() && self.10.is_default_spec()
    }

    open spec fn obeys_is_default_spec() -> bool {
        A::obeys_is_default_spec() && B::obeys_is_default_spec() && C::obeys_is_default_spec() && D::obeys_is_default_spec() && E::obeys_is_default_spec() && F::obeys_is_default_spec() && G::obeys_is_default_spec() && H::obeys_is_default_spec() && I::obeys_is_default_spec() && J::obeys_is_default_spec() && K::obeys_is_default_spec()
    }

    /// Returns `true` if every component is default.
    fn is_default(&self) -> (r: bool)
        ensures
            Self::obeys_is_default_spec() ==> r == self.is_default_spec(),
    {
        self.0.is_default() && self.1.is_default() && self.2.is_default() && self.3.is_default() && self.4.is_default() && self.5.is_default() && self.6.is_default() && self.7.is_default() && self.8.is_default() && self.9.is_default() && self.10.is_default()
    }
}

impl<A: IsDefault, B: IsDefault, C: IsDefault, D: IsDefault, E: IsDefault, F: IsDefault, G: IsDefault, H: IsDefault, I: IsDefault, J: IsDefault, K: IsDefault, L: IsDefault> IsDefault for (A, B, C, D, E, F, G, H, I, J, K, L) {
    open spec fn is_default_spec(&self) -> bool {
        self.0.is_default_spec() && self.1.is_default_spec() && self.2.is_default_spec() && self.3.is_default_spec() && self.4.is_default_spec() && self.5.is_default_spec() && self.6.is_default_spec() && self.7.is_default_spec() && self.8.is_default_spec() && self.9.is_default_spec() && self.10.is_default_spec() && self.11.is_default_spec()
    }

    open spec fn obeys_is_default_spec() -> bool {
        A::obeys_is_default_spec() && B::obeys_is_default_spec() && C::obeys_is_default_spec() && D::obeys_is_default_spec() && E::obeys_is_default_spec() && F::obeys_is_default_spec() && G::obeys_is_default_spec() && H::obeys_is_default_spec() && I::obeys_is_default_spec() && J::obeys_is_default_spec() && K::obeys_is_default_spec() && L::obeys_is_default_spec()
    }

    /// Returns `true` if every component is default.
    fn is_default(&self) -> (r: bool)
        ensures
            Self::obeys_is_default_spec() ==> r == self.is_default_spec(),
    {
        self.0.is_default() && self.1.is_default() && self.2.is_default() && self.3.is_default() && self.4.is_default() && self.5.is_default() && self.6.is_default() && self.7.is_default() && self.8.is_default() && self.9.is_default() && self.10.is_default() && self.11.is_default()
    }
}

/// The tuple rule at its lower boundary: the empty tuple is always
/// default, and a one-tuple is default exactly when its component is.
pub proof fn lemma_tuple_law_small<A: IsDefault>(unit: (), single: (A,))
    ensures
        unit.is_default_spec(),
        single.is_default_spec() == single.0.is_default_spec(),
{
}

/// The tuple rule at its upper boundary: a twelve-tuple is default
/// exactly when every one of its components is.
pub proof fn lemma_tuple_law_large<
    A: IsDefault,
    B: IsDefault,
    C: IsDefault,
    D: IsDefault,
    E: IsDefault,
    F: IsDefault,
    G: IsDefault,
    H: IsDefault,
    I: IsDefault,
    J: IsDefault,
    K: IsDefault,
    L: IsDefault,
>(t: (A, B, C, D, E, F, G, H, I, J, K, L))
    ensures
        t.is_default_spec() == (t.0.is_default_spec() && t.1.is_default_spec()
            && t.2.is_default_spec() && t.3.is_default_spec() && t.4.is_default_spec()
            && t.5.is_default_spec() && t.6.is_default_spec() && t.7.is_default_spec()
            && t.8.is_default_spec() && t.9.is_default_spec() && t.10.is_default_spec()
            && t.11.is_default_spec()),
{
}

} // verus!
