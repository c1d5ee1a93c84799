//! Implementations of [`IsDefault`] for types whose answer depends on state
//! outside the value itself: interior-mutability cells and their borrow
//! guards, lock wrappers, lazily-initialized cells and atomics.
//!
//! For these types `obeys_is_default_spec` is `false`: what the check
//! returns turns on the current contents of a cell, the contention of a
//! lock or a concurrent write to an atomic, none of which a specification
//! over the value alone can pin down.  The lock wrappers never block: when
//! the guarded value cannot be read immediately, the check reports "not
//! default" rather than waiting or raising an error.  The trusted items
//! here only acquire, convert and hand values out; every decision — what
//! a failed acquisition means, and the dispatch into the element check —
//! stands in verified code.

use vstd::prelude::*;

use crate::IsDefault;

verus! {

/// Declares `core::cell::Cell` as an opaque type.
#[verifier::external_type_specification]
#[verifier::external_body]
#[verifier::reject_recursive_types(T)]
pub struct ExCell<T: ?Sized>(core::cell::Cell<T>);

/// Relies on `Cell::get`: returns a copy of the cell's current contents.
pub assume_specification<T: Copy>[ core::cell::Cell::<T>::get ](c: &core::cell::Cell<T>) -> T;

impl<T: IsDefault + Copy> IsDefault for core::cell::Cell<T> {
    /// Returns `true` if the cell's current contents are default.
    fn is_default(&self) -> (r: bool) {
        self.get().is_default()
    }
}

/// Declares `core::cell::RefCell` as an opaque type.
#[verifier::external_type_specification]
#[verifier::external_body]
#[verifier::reject_recursive_types(T)]
pub struct ExRefCell<T: ?Sized>(core::cell::RefCell<T>);

/// Declares `core::cell::Ref`, the shared borrow guard, as an opaque type.
#[verifier::external_type_specification]
#[verifier::external_body]
#[verifier::reject_recursive_types(T)]
pub struct ExRef<'b, T: ?Sized>(core::cell::Ref<'b, T>);

/// Declares `core::cell::RefMut`, the mutable borrow guard, as an opaque
/// type.
#[verifier::external_type_specification]
#[verifier::external_body]
#[verifier::reject_recursive_types(T)]
pub struct ExRefMut<'b, T: ?Sized + 'b>(core::cell::RefMut<'b, T>);

/// Relies on `Ref::deref`: hands out the borrowed contents unchanged.
pub assume_specification<'a, 'b, T: ?Sized>[ <core::cell::Ref<'a, T> as core::ops::Deref>::deref ](
    g: &'b core::cell::Ref<'a, T>,
) -> &'b T;

/// Relies on `RefMut::deref`: hands out the borrowed contents unchanged.
pub assume_specification<'a, 'b, T: ?Sized>[ <core::cell::RefMut<
    'a,
    T,
> as core::ops::Deref>::deref ](g: &'b core::cell::RefMut<'a, T>) -> &'b T;

/// Relies on `RefCell::try_borrow`: returns `Err` exactly while a mutable
/// borrow is live, without blocking or panicking.  The body only turns the
/// `Result` into an `Option`; what is done with the outcome is decided in
/// verified code.
#[verifier::external_body]
fn try_borrow_guard<'a, T>(c: &'a core::cell::RefCell<T>) -> Option<core::cell::Ref<'a, T>> {
    match c.try_borrow() {
        Ok(g) => Some(g),
        Err(_) => None,
    }
}

/// The decision the design demands of a lock-like wrapper, taken on the
/// acquisition outcome: with no guard the contents could not be read
/// immediately and the answer is `false` at once, whatever they hold;
/// with a guard the borrowed contents go to the library's own check.
fn borrow_outcome_default<T: IsDefault>(outcome: Option<core::cell::Ref<'_, T>>) -> (r: bool)
    ensures
        outcome is None ==> r == false,
{
    match outcome {
        Some(g) => (*g).is_default(),
        None => false,
    }
}

impl<T: IsDefault> IsDefault for core::cell::RefCell<T> {
    /// Returns `true` if the cell can be borrowed immediately and its
    /// contents are default.  While a mutable borrow is live the check
    /// returns `false` at once; it never panics.
    fn is_default(&self) -> (r: bool) {
        borrow_outcome_default(try_borrow_guard(self))
    }
}

/// Declares `core::cell::OnceCell` as an opaque type.
#[verifier::external_type_specification]
#[verifier::external_body]
#[verifier::reject_recursive_types(T)]
pub struct ExOnceCell<T>(core::cell::OnceCell<T>);

/// Relies on `OnceCell::get`: returns `None` exactly while the cell has
/// never been written.
pub assume_specification<'a, T>[ core::cell::OnceCell::<T>::get ](
    c: &'a core::cell::OnceCell<T>,
) -> Option<&'a T>;

impl<T> IsDefault for core::cell::OnceCell<T> {
    /// Returns `true` if the cell is still uninitialized.  A stored value
    /// is not inspected.
    fn is_default(&self) -> (r: bool) {
        self.get().is_none()
    }
}

/// Declares `std::sync::OnceLock` as an opaque type.
#[verifier::external_type_specification]
#[verifier::external_body]
#[verifier::reject_recursive_types(T)]
pub struct ExOnceLock<T>(std::sync::OnceLock<T>);

/// Relies on `OnceLock::get`: returns `None` exactly while the lock has
/// never been written.
pub assume_specification<'a, T>[ std::sync::OnceLock::<T>::get ](
    c: &'a std::sync::OnceLock<T>,
) -> Option<&'a T>;

impl<T> IsDefault for std::sync::OnceLock<T> {
    /// Returns `true` if the lock is still uninitialized.  A stored value
    /// is not inspected.
    fn is_default(&self) -> (r: bool) {
        self.get().is_none()
    }
}

/// Declares `std::sync::Mutex` as an opaque type.
#[verifier::external_type_specification]
#[verifier::external_body]
#[verifier::reject_recursive_types(T)]
pub struct ExMutex<T: ?Sized>(std::sync::Mutex<T>);

/// Declares `std::sync::MutexGuard` as an opaque type.
#[verifier::external_type_specification]
#[verifier::external_body]
#[verifier::reject_recursive_types(T)]
pub struct ExMutexGuard<'a, T: ?Sized + 'a>(std::sync::MutexGuard<'a, T>);

/// Relies on `MutexGuard::deref`: hands out the guarded value unchanged.
pub assume_specification<'a, 'b, T: ?Sized>[ <std::sync::MutexGuard<
    'a,
    T,
> as core::ops::Deref>::deref ](g: &'b std::sync::MutexGuard<'a, T>) -> &'b T;

/// Relies on `Mutex::try_lock`: returns `Err` when the lock is held or
/// poisoned, without blocking.  The body only turns the `Result` into an
/// `Option`; what is done with the outcome is decided in verified code.
#[verifier::external_body]
fn try_lock_guard<'a, T>(m: &'a std::sync::Mutex<T>) -> Option<std::sync::MutexGuard<'a, T>> {
    match m.try_lock() {
        Ok(g) => Some(g),
        Err(_) => None,
    }
}

/// The decision taken on the lock-acquisition outcome: with no guard the
/// lock was held or poisoned and the answer is `false` at once, whatever
/// the guarded value holds; with a guard that value goes to the library's
/// own check.
fn lock_outcome_default<T: IsDefault>(outcome: Option<std::sync::MutexGuard<'_, T>>) -> (r: bool)
    ensures
        outcome is None ==> r == false,
{
    match outcome {
        Some(g) => (*g).is_default(),
        None => false,
    }
}

impl<T: IsDefault> IsDefault for std::sync::Mutex<T> {
    /// Returns `true` if the lock can be acquired immediately and the
    /// guarded value is default.  When the lock is held elsewhere or
    /// poisoned the check returns `false` at once; it never blocks and
    /// never propagates an error.
    fn is_default(&self) -> (r: bool) {
        lock_outcome_default(try_lock_guard(self))
    }
}

/// Declares `std::sync::RwLock` as an opaque type.
#[verifier::external_type_specification]
#[verifier::external_body]
#[verifier::reject_recursive_types(T)]
pub struct ExRwLock<T: ?Sized>(std::sync::RwLock<T>);

/// Declares `std::sync::RwLockReadGuard` as an opaque type.
#[verifier::external_type_specification]
#[verifier::external_body]
#[verifier::reject_recursive_types(T)]
pub struct ExRwLockReadGuard<'a, T: ?Sized>(std::sync::RwLockReadGuard<'a, T>);

/// Relies on `RwLockReadGuard::deref`: hands out the guarded value
/// unchanged.
pub assume_specification<'a, 'b, T: ?Sized>[ <std::sync::RwLockReadGuard<
    'a,
    T,
> as core::ops::Deref>::deref ](g: &'b std::sync::RwLockReadGuard<'a, T>) -> &'b T;

/// Relies on `RwLock::try_read`: returns `Err` when the lock is held for
/// writing or poisoned, without blocking.  The body only turns the
/// `Result` into an `Option`; what is done with the outcome is decided in
/// verified code.
#[verifier::external_body]
fn try_read_guard<'a, T>(l: &'a std::sync::RwLock<T>) -> Option<
    std::sync::RwLockReadGuard<'a, T>,
> {
    match l.try_read() {
        Ok(g) => Some(g),
        Err(_) => None,
    }
}

/// The decision taken on the read-acquisition outcome: with no guard the
/// lock was held for writing or poisoned and the answer is `false` at
/// once, whatever the guarded value holds; with a guard that value goes
/// to the library's own check.
fn read_outcome_default<T: IsDefault>(
    outcome: Option<std::sync::RwLockReadGuard<'_, T>>,
) -> (r: bool)
    ensures
        outcome is None ==> r == false,
{
    match outcome {
        Some(g) => (*g).is_default(),
        None => false,
    }
}

impl<T: IsDefault> IsDefault for std::sync::RwLock<T> {
    /// Returns `true` if a read lock can be acquired immediately and the
    /// guarded value is default.  When the lock is held for writing or
    /// poisoned the check returns `false` at once; it never blocks and
    /// never propagates an error.
    fn is_default(&self) -> (r: bool) {
        read_outcome_default(try_read_guard(self))
    }
}

impl IsDefault for core::sync::atomic::AtomicBool {
    /// Returns `true` if a relaxed load of the current value reads `false`.
    fn is_default(&self) -> (r: bool) {
        !self.load(core::sync::atomic::Ordering::Relaxed)
    }
}

impl IsDefault for core::sync::atomic::AtomicU8 {
    /// Returns `true` if a relaxed load of the current value reads zero.
    fn is_default(&self) -> (r: bool) {
        self.load(core::sync::atomic::Ordering::Relaxed) == 0
    }
}

impl IsDefault for core::sync::atomic::AtomicU16 {
    /// Returns `true` if a relaxed load of the current value reads zero.
    fn is_default(&self) -> (r: bool) {
        self.load(core::sync::atomic::Ordering::Relaxed) == 0
    }
}

impl IsDefault for core::sync::atomic::AtomicU32 {
    /// Returns `true` if a relaxed load of the current value reads zero.
    fn is_default(&self) -> (r: bool) {
        self.load(core::sync::atomic::Ordering::Relaxed) == 0
    }
}

impl IsDefault for core::sync::atomic::AtomicU64 {
    /// Returns `true` if a relaxed load of the current value reads zero.
    fn is_default(&self) -> (r: bool) {
        self.load(core::sync::atomic::Ordering::Relaxed) == 0
    }
}

impl IsDefault for core::sync::atomic::AtomicUsize {
    /// Returns `true` if a relaxed load of the current value reads zero.
    fn is_default(&self) -> (r: bool) {
        self.load(core::sync::atomic::Ordering::Relaxed) == 0
    }
}

impl IsDefault for core::sync::atomic::AtomicI8 {
    /// Returns `true` if a relaxed load of the current value reads zero.
    fn is_default(&self) -> (r: bool) {
        self.load(core::sync::atomic::Ordering::Relaxed) == 0
    }
}

impl IsDefault for core::sync::atomic::AtomicI16 {
    /// Returns `true` if a relaxed load of the current value reads zero.
    fn is_default(&self) -> (r: bool) {
        self.load(core::sync::atomic::Ordering::Relaxed) == 0
    }
}

impl IsDefault for core::sync::atomic::AtomicI32 {
    /// Returns `true` if a relaxed load of the current value reads zero.
    fn is_default(&self) -> (r: bool) {
        self.load(core::sync::atomic::Ordering::Relaxed) == 0
    }
}

impl IsDefault for core::sync::atomic::AtomicI64 {
    /// Returns `true` if a relaxed load of the current value reads zero.
    fn is_default(&self) -> (r: bool) {
        self.load(core::sync::atomic::Ordering::Relaxed) == 0
    }
}

impl IsDefault for core::sync::atomic::AtomicIsize {
    /// Returns `true` if a relaxed load of the current value reads zero.
    fn is_default(&self) -> (r: bool) {
        self.load(core::sync::atomic::Ordering::Relaxed) == 0
    }
}

impl<'b, T: IsDefault> IsDefault for core::cell::Ref<'b, T> {
    /// Delegates to the borrowed contents the guard gives access to.
    fn is_default(&self) -> (r: bool) {
        (**self).is_default()
    }
}

impl<'b, T: IsDefault> IsDefault for core::cell::RefMut<'b, T> {
    /// Delegates to the borrowed contents the guard gives access to.
    fn is_default(&self) -> (r: bool) {
        (**self).is_default()
    }
}

} // verus!
