use std::any::TypeId;
use std::future::Future;
use std::mem::size_of;
use std::pin::Pin;
use std::task::{Context, Poll};

use dyn_utils::private::{DynVTable, StorageVTable};
use dyn_utils::storage::{DefaultStorage, DynStorage, Storage};
use dyn_utils::vtables::{AnyVTable, FutureVTable, IteratorVTable};
use dyn_utils::Layout;
use futures::FutureExt;

type Destructor = fn(&mut [u8]);

fn no_destructor(_: &mut [u8]) {}

type AnyTable = AnyVTable<Destructor>;

type DynAny<'v> = DynStorage<'v, DefaultStorage, AnyTable>;

type PollFn<T> = fn(&mut [u8]) -> Poll<T>;

type FutureTable<T> = FutureVTable<Destructor, PollFn<T>>;

type NextFn<T> = fn(&mut [u8]) -> Option<T>;

type SizeHintFn = fn(&[u8]) -> (usize, Option<usize>);

type NthFn<T> = fn(&mut [u8], usize) -> Option<T>;

type IteratorTable<T> = IteratorVTable<Destructor, NextFn<T>, SizeHintFn, NthFn<T>>;

/// An erased computation, as a future.
struct DynFuture<'v, T>(DynStorage<'v, DefaultStorage, FutureTable<T>>);

impl<T> Future for DynFuture<'_, T> {
    type Output = T;

    fn poll(self: Pin<&mut Self>, _cx: &mut Context<'_>) -> Poll<T> {
        self.get_mut().0.poll()
    }
}

fn poll_usize(state: &mut [u8]) -> Poll<usize> {
    Poll::Ready(usize::from_ne_bytes((&*state).try_into().unwrap()))
}

/// The state of a sequence over four numbers: the range of those that are
/// left, and the numbers.
struct FourNumbers {
    _start: usize,
    _end: usize,
    _items: [usize; 4],
}

fn word(state: &[u8], index: usize) -> usize {
    let at = index * size_of::<usize>();
    usize::from_ne_bytes(state[at..at + size_of::<usize>()].try_into().unwrap())
}

fn set_word(state: &mut [u8], index: usize, value: usize) {
    let at = index * size_of::<usize>();
    state[at..at + size_of::<usize>()].copy_from_slice(&value.to_ne_bytes());
}

fn four_numbers(items: [usize; 4]) -> Vec<u8> {
    let mut state = vec![0; size_of::<FourNumbers>()];
    set_word(&mut state, 0, 0);
    set_word(&mut state, 1, items.len());
    for (i, item) in items.into_iter().enumerate() {
        set_word(&mut state, 2 + i, item);
    }
    state
}

fn next_number(state: &mut [u8]) -> Option<usize> {
    nth_number(state, 0)
}

fn numbers_left(state: &[u8]) -> (usize, Option<usize>) {
    let left = word(state, 1) - word(state, 0);
    (left, Some(left))
}

fn nth_number(state: &mut [u8], n: usize) -> Option<usize> {
    let (start, end) = (word(state, 0), word(state, 1));
    if n >= end - start {
        set_word(state, 0, end);
        return None;
    }
    set_word(state, 0, start + n + 1);
    Some(word(state, 2 + start + n))
}

fn assert_send<T: Send>(_: &T) {}

#[test]
fn dyn_any() {
    let table = AnyTable::new::<DefaultStorage, bool>(no_destructor);
    let mut any = DynAny::new::<bool>(vec![false as u8], &table);
    assert_eq!(any.downcast_ref(TypeId::of::<()>()), None);
    assert_eq!(any.downcast_ref(TypeId::of::<bool>()), Some(&[false as u8][..]));
    assert_eq!(any.downcast_mut(TypeId::of::<()>()), None);
    any.downcast_mut(TypeId::of::<bool>()).unwrap()[0] = true as u8;
    let storage = any.downcast(TypeId::of::<()>()).unwrap_err();
    assert_eq!(storage.downcast(TypeId::of::<bool>()).unwrap(), [true as u8]);
    let unit = AnyTable::new::<DefaultStorage, ()>(no_destructor);
    DynAny::new::<()>(Vec::new(), &unit).drop();
}

#[test]
fn vtables_dyn_future() {
    let n: usize = 42;
    let table = FutureTable::new::<DefaultStorage, usize>(no_destructor, poll_usize);
    let future = DynFuture(DynStorage::new::<usize>(n.to_ne_bytes().to_vec(), &table));
    assert_eq!(future.now_or_never(), Some(42));
}

#[test]
fn vtables_dyn_future_send() {
    let n: usize = 42;
    let table = FutureTable::new::<DefaultStorage, usize>(no_destructor, poll_usize);
    let future = DynFuture(DynStorage::new::<usize>(n.to_ne_bytes().to_vec(), &table));
    assert_send(&future);
    assert_eq!(future.now_or_never(), Some(42));
}

#[test]
fn vtables_dyn_iterator() {
    let table = IteratorTable::new::<DefaultStorage, FourNumbers>(
        no_destructor,
        next_number,
        numbers_left,
        nth_number,
    );
    let mut iter: DynStorage<DefaultStorage, IteratorTable<usize>> =
        DynStorage::new::<FourNumbers>(four_numbers([0, 1, 2, 3]), &table);
    assert_eq!(iter.size_hint(), (4, Some(4)));
    assert_eq!(iter.nth(2), Some(2));
    assert_eq!(iter.next(), Some(3));
}

#[test]
fn any_is_of_one_type_only() {
    let table = AnyTable::new::<DefaultStorage, u32>(no_destructor);
    assert_eq!(table.type_id(), TypeId::of::<u32>());
    let any = DynAny::new::<u32>(7u32.to_ne_bytes().to_vec(), &table);
    assert_eq!(any.type_id(), TypeId::of::<u32>());
    assert!(any.is(TypeId::of::<u32>()));
    assert!(!any.is(TypeId::of::<i32>()));
    assert!(!any.is(TypeId::of::<bool>()));
    assert!(!any.is(TypeId::of::<()>()));
    assert!(!any.is(TypeId::of::<[u8; 4]>()));
}

#[test]
fn any_round_trip_inline_and_on_the_heap() {
    let small = AnyTable::new::<DefaultStorage, u64>(no_destructor);
    let object = DynAny::new::<u64>(0x0102_0304_0506_0708u64.to_ne_bytes().to_vec(), &small);
    assert!(object.inner().is_left());
    let bytes = object.downcast(TypeId::of::<u64>()).unwrap();
    assert_eq!(u64::from_ne_bytes(bytes.try_into().unwrap()), 0x0102_0304_0506_0708);

    let data: Vec<u8> = (0..=255).collect();
    let large = AnyTable::new::<DefaultStorage, [u8; 256]>(no_destructor);
    let object = DynAny::new::<[u8; 256]>(data.clone(), &large);
    assert!(object.inner().is_right());
    assert_eq!(object.downcast_ref(TypeId::of::<[u8; 256]>()), Some(&data[..]));
    assert_eq!(object.downcast(TypeId::of::<[u8; 256]>()).unwrap(), data);
}

#[test]
fn failed_downcast_leaves_the_object_usable() {
    let table = AnyTable::new::<DefaultStorage, u16>(no_destructor);
    let object = DynAny::new::<u16>(vec![5, 6], &table);
    let mut object = object.downcast(TypeId::of::<u8>()).unwrap_err();
    assert_eq!(object.downcast_ref(TypeId::of::<u16>()), Some(&[5u8, 6][..]));
    object.downcast_mut(TypeId::of::<u16>()).unwrap()[1] = 9;
    let object = object.downcast(TypeId::of::<i16>()).unwrap_err();
    assert_eq!(object.downcast(TypeId::of::<u16>()).unwrap(), [5, 9]);
}

#[test]
fn table_from_parts_keeps_its_parts() {
    let layout = Layout { size: 3, align: 1 };
    let metadata = || DynVTable::from_parts(true, no_destructor as Destructor, layout);
    let any = AnyVTable::from_parts(metadata(), TypeId::of::<String>());
    assert_eq!(any.type_id(), TypeId::of::<String>());
    assert_eq!(any.layout(), layout);
    assert!(any.drop_in_place().is_some());
    let future = FutureVTable::from_parts(metadata(), poll_usize as PollFn<usize>);
    assert_eq!(future.layout(), layout);
    assert!(future.drop_in_place().is_some());
    assert_eq!((future.poll_fn())(&mut 5usize.to_ne_bytes()), Poll::Ready(5));
    let iterator = IteratorVTable::from_parts(
        metadata(),
        next_number as NextFn<usize>,
        numbers_left as SizeHintFn,
        nth_number as NthFn<usize>,
    );
    assert_eq!(iterator.layout(), layout);
    assert!(iterator.drop_in_place().is_some());
    let mut state = four_numbers([4, 5, 6, 7]);
    assert_eq!((iterator.size_hint_fn())(&state), (4, Some(4)));
    assert_eq!((iterator.next_fn())(&mut state), Some(4));
    assert_eq!((iterator.nth_fn())(&mut state, 1), Some(6));
}

#[test]
fn sequence_steps_in_place_until_it_ends() {
    let table = IteratorTable::new::<DefaultStorage, FourNumbers>(
        no_destructor,
        next_number,
        numbers_left,
        nth_number,
    );
    let mut iter: DynStorage<DefaultStorage, IteratorTable<usize>> =
        DynStorage::new::<FourNumbers>(four_numbers([10, 20, 30, 40]), &table);
    assert_eq!(iter.next(), Some(10));
    assert_eq!(iter.size_hint(), (3, Some(3)));
    assert_eq!(iter.nth(5), None);
    assert_eq!(iter.size_hint(), (0, Some(0)));
    assert_eq!(iter.next(), None);
    assert_eq!(iter.inner().ptr().len(), size_of::<FourNumbers>());
    assert!(!iter.drop().destroyed);
}
