use is_default::is_default_via_eq;
use is_default::IsDefault;
use std::borrow::Cow;
use std::cell::{Cell, OnceCell, RefCell};
use std::collections::{BTreeMap, BTreeSet, HashMap, HashSet, VecDeque};
use std::io::Cursor;
use std::marker::PhantomPinned;
use std::num::Wrapping;
use std::rc::Rc;
use std::sync::atomic::{
    AtomicBool, AtomicI16, AtomicI32, AtomicI64, AtomicI8, AtomicIsize, AtomicU16, AtomicU32,
    AtomicU64, AtomicU8, AtomicUsize,
};
use std::sync::{Arc, Mutex, OnceLock, RwLock};
use std::time::Duration;

#[test]
fn bool_values() {
    assert!(bool::default().is_default());
    assert!(false.is_default());
    assert!(!true.is_default());
}

#[test]
fn char_values() {
    assert!(char::default().is_default());
    assert!('\x00'.is_default());
    assert!(!'a'.is_default());
    assert!(!char::MAX.is_default());
}

#[test]
fn unsigned_values() {
    assert!(u8::default().is_default());
    assert!(0u8.is_default());
    assert!(!1u8.is_default());
    assert!(!u8::MAX.is_default());
    assert!(0u16.is_default());
    assert!(!u16::MAX.is_default());
    assert!(0u32.is_default());
    assert!(!u32::MAX.is_default());
    assert!(0u64.is_default());
    assert!(!u64::MAX.is_default());
    assert!(0u128.is_default());
    assert!(!u128::MAX.is_default());
    assert!(0usize.is_default());
    assert!(!usize::MAX.is_default());
}

#[test]
fn signed_values() {
    assert!(i8::default().is_default());
    assert!(0i8.is_default());
    assert!(!1i8.is_default());
    assert!(!i8::MIN.is_default());
    assert!(!i8::MAX.is_default());
    assert!(0i16.is_default());
    assert!(!i16::MIN.is_default());
    assert!(!i16::MAX.is_default());
    assert!(0i32.is_default());
    assert!(!i32::MIN.is_default());
    assert!(!i32::MAX.is_default());
    assert!(0i64.is_default());
    assert!(!i64::MIN.is_default());
    assert!(!i64::MAX.is_default());
    assert!(0i128.is_default());
    assert!(!i128::MIN.is_default());
    assert!(!i128::MAX.is_default());
    assert!(0isize.is_default());
    assert!(!isize::MIN.is_default());
    assert!(!isize::MAX.is_default());
}

#[test]
fn unit_value() {
    assert!(().is_default());
}

#[test]
fn tuple_single() {
    let mut tuple: (u8,) = (0,);
    assert!(tuple.is_default());
    tuple.0 = 1;
    assert!(!tuple.is_default());
}

#[test]
fn tuple_twelve() {
    let mut tuple: (u8, u8, u8, u8, u8, u8, u8, u8, u8, u8, u8, u8) =
        (0, 0, 0, 0, 0, 0, 0, 0, 0, 0, 0, 0);
    assert!(tuple.is_default());
    tuple.0 = 1;
    assert!(!tuple.is_default());
    tuple.0 = 0;
    tuple.5 = 1;
    assert!(!tuple.is_default());
    tuple.5 = 0;
    tuple.11 = 1;
    assert!(!tuple.is_default());
    tuple.11 = 0;
    assert!(tuple.is_default());
}

#[test]
fn str_values() {
    assert!("".is_default());
    assert!(!"x".is_default());
}

#[test]
fn string_values() {
    assert!(String::default().is_default());
    assert!(String::from("").is_default());
    assert!(!String::from("x").is_default());
}

#[test]
fn slice_values() {
    let empty: &[u8] = &[];
    assert!(empty.is_default());
    assert!([0u8].as_slice().is_default());
    assert!(!([1u8].as_slice().is_default()));
    assert!([0u8, 0u8].as_slice().is_default());
    assert!(!([0u8, 2u8].as_slice().is_default()));
}

#[test]
fn array_values() {
    assert!([1u8; 0].is_default());
    assert!([0u8].is_default());
    assert!(![1u8].is_default());
    assert!([0u8, 0u8, 0u8].is_default());
    assert!(![0u8, 0u8, 9u8].is_default());
}

#[test]
fn option_values() {
    assert!(Option::<u8>::default().is_default());
    assert!(None::<u8>.is_default());
    assert!(!Some(0u8).is_default());
}

#[test]
fn reference_values() {
    let zero: u8 = 0;
    let one: u8 = 1;
    assert!((&zero).is_default());
    assert!(!(&one).is_default());
    let mut two: u8 = 2;
    let borrow: &mut u8 = &mut two;
    assert!(!borrow.is_default());
}

#[test]
fn vec_values() {
    assert!(Vec::<u8>::new().is_default());
    assert!(!Vec::from([0u8]).is_default());
}

#[test]
fn vec_deque_values() {
    assert!(VecDeque::<u8>::new().is_default());
    assert!(!VecDeque::from([0u8]).is_default());
}

#[test]
fn b_tree_map_values() {
    assert!(BTreeMap::<u8, u8>::new().is_default());
    assert!(!BTreeMap::from([(0u8, 0u8)]).is_default());
}

#[test]
fn b_tree_set_values() {
    assert!(BTreeSet::<u8>::new().is_default());
    assert!(!BTreeSet::from([0u8]).is_default());
}

#[test]
fn hash_map_values() {
    assert!(HashMap::<u8, u8>::new().is_default());
    assert!(!HashMap::from([(0u8, 0u8)]).is_default());
}

#[test]
fn hash_set_values() {
    assert!(HashSet::<u8>::new().is_default());
    assert!(!HashSet::from([0u8]).is_default());
}

#[test]
fn pointer_values() {
    assert!(Box::new(0u8).is_default());
    assert!(!Box::new(1u8).is_default());
    assert!(Rc::new(0u8).is_default());
    assert!(!Rc::new(1u8).is_default());
    assert!(Arc::new(0u8).is_default());
    assert!(!Arc::new(1u8).is_default());
}

#[test]
fn pointer_delegation_matches_pointee() {
    for v in [0u8, 1u8, 255u8] {
        assert_eq!(Box::new(v).is_default(), v.is_default());
        assert_eq!(Rc::new(v).is_default(), v.is_default());
        assert_eq!(Arc::new(v).is_default(), v.is_default());
        assert_eq!((&v).is_default(), v.is_default());
    }
}

#[test]
fn cow_values() {
    assert!(Cow::from("").is_default());
    assert!(!Cow::from("x").is_default());
    assert!(Cow::<u8>::Owned(0u8).is_default());
    assert!(!Cow::<u8>::Owned(3u8).is_default());
    let zero: u8 = 0;
    assert!(Cow::Borrowed(&zero).is_default());
}

#[test]
fn cow_slice_values() {
    assert!(Cow::<[u8]>::Owned(vec![]).is_default());
    assert!(Cow::<[u8]>::Owned(vec![0u8, 0u8]).is_default());
    assert!(!Cow::<[u8]>::Owned(vec![0u8, 1u8]).is_default());
    let all_zero: &[u8] = &[0u8];
    assert!(Cow::<[u8]>::Borrowed(all_zero).is_default());
    let non_zero: &[u8] = &[2u8];
    assert!(!Cow::<[u8]>::Borrowed(non_zero).is_default());
}

#[test]
fn wrapping_values() {
    assert!(Wrapping(0u8).is_default());
    assert!(!Wrapping(1u8).is_default());
}

#[test]
fn duration_values() {
    assert!(Duration::ZERO.is_default());
    assert!(Duration::default().is_default());
    assert!(!Duration::new(1, 0).is_default());
    assert!(!Duration::new(0, 1).is_default());
}

#[test]
fn phantom_pinned_value() {
    assert!(PhantomPinned.is_default());
}

#[test]
fn cell_values() {
    assert!(Cell::new(0u8).is_default());
    assert!(!Cell::new(1u8).is_default());
}

#[test]
fn ref_cell_values() {
    assert!(RefCell::new(0u8).is_default());
    assert!(!RefCell::new(1u8).is_default());
}

#[test]
fn borrow_guard_values() {
    let zero = RefCell::new(0u8);
    assert!(zero.borrow().is_default());
    assert!(zero.borrow_mut().is_default());
    let one = RefCell::new(1u8);
    assert!(!one.borrow().is_default());
    assert!(!one.borrow_mut().is_default());
}

#[test]
fn ref_cell_contention() {
    let cell = RefCell::new(0u8);
    assert!(cell.is_default());
    let guard = cell.borrow_mut();
    assert!(!cell.is_default());
    drop(guard);
    assert!(cell.is_default());
}

#[test]
fn once_cell_values() {
    let cell: OnceCell<u8> = OnceCell::new();
    assert!(cell.is_default());
    cell.set(0u8).unwrap();
    assert!(!cell.is_default());
}

#[test]
fn once_lock_values() {
    let lock: OnceLock<u8> = OnceLock::new();
    assert!(lock.is_default());
    lock.set(0u8).unwrap();
    assert!(!lock.is_default());
}

#[test]
fn mutex_values() {
    assert!(Mutex::new(0u8).is_default());
    assert!(!Mutex::new(1u8).is_default());
}

#[test]
fn mutex_contention() {
    let lock = Mutex::new(0u8);
    assert!(lock.is_default());
    let guard = lock.lock().unwrap();
    assert!(!lock.is_default());
    drop(guard);
    assert!(lock.is_default());
}

#[test]
fn rw_lock_values() {
    assert!(RwLock::new(0u8).is_default());
    assert!(!RwLock::new(1u8).is_default());
}

#[test]
fn rw_lock_contention() {
    let lock = RwLock::new(0u8);
    assert!(lock.is_default());
    let guard = lock.write().unwrap();
    assert!(!lock.is_default());
    drop(guard);
    assert!(lock.is_default());
}

#[test]
fn atomic_bool_values() {
    assert!(AtomicBool::new(false).is_default());
    assert!(!AtomicBool::new(true).is_default());
}

#[test]
fn atomic_unsigned_values() {
    assert!(AtomicU8::new(0).is_default());
    assert!(!AtomicU8::new(1).is_default());
    assert!(!AtomicU8::new(u8::MAX).is_default());
    assert!(AtomicU16::new(0).is_default());
    assert!(!AtomicU16::new(u16::MAX).is_default());
    assert!(AtomicU32::new(0).is_default());
    assert!(!AtomicU32::new(u32::MAX).is_default());
    assert!(AtomicU64::new(0).is_default());
    assert!(!AtomicU64::new(u64::MAX).is_default());
    assert!(AtomicUsize::new(0).is_default());
    assert!(!AtomicUsize::new(usize::MAX).is_default());
}

#[test]
fn atomic_signed_values() {
    assert!(AtomicI8::new(0).is_default());
    assert!(!AtomicI8::new(1).is_default());
    assert!(!AtomicI8::new(i8::MIN).is_default());
    assert!(!AtomicI8::new(i8::MAX).is_default());
    assert!(AtomicI16::new(0).is_default());
    assert!(!AtomicI16::new(i16::MAX).is_default());
    assert!(AtomicI32::new(0).is_default());
    assert!(!AtomicI32::new(i32::MAX).is_default());
    assert!(AtomicI64::new(0).is_default());
    assert!(!AtomicI64::new(i64::MAX).is_default());
    assert!(AtomicIsize::new(0).is_default());
    assert!(!AtomicIsize::new(isize::MAX).is_default());
}

#[test]
fn cursor() {
    let mut c = Cursor::new([0u8; 1]);
    assert!(c.is_default());
    c.set_position(1);
    assert!(!c.is_default());
}

#[test]
fn via_eq_fallback() {
    assert!(is_default_via_eq(&0u8));
    assert!(!is_default_via_eq(&1u8));
    assert!(is_default_via_eq(&String::new()));
    assert!(!is_default_via_eq(&String::from("x")));
    assert!(is_default_via_eq(&Vec::<u8>::new()));
}

#[test]
fn idempotent_checks() {
    let v = Vec::from([0u8]);
    assert_eq!(v.is_default(), v.is_default());
    let n: u8 = 0;
    assert_eq!(n.is_default(), n.is_default());
    let c = Cursor::new([0u8; 1]);
    assert_eq!(c.is_default(), c.is_default());
    let d = Duration::new(0, 7);
    assert_eq!(d.is_default(), d.is_default());
}
