//! Backing storages: where the bytes of an erased object live.
//!
//! A storage is built from the object representation of one value, hands out
//! the place that holds it for as long as it is live, and is torn down once.
//! [`Raw`] holds the bytes inline in a fixed buffer, [`Box`] on the heap, and
//! `Either<S1, S2>` in `S1` when the value fits there and in `S2` otherwise.

use crate::layout::{layout_of, Layout};
use crate::private::StorageVTable;
use either::Either;
use std::boxed::Box as StdBox;
use vstd::prelude::*;

verus! {

/// `either::Either`, with its two variants `Left` and `Right`.
#[verifier::external_type_specification]
#[verifier::reject_recursive_types(L)]
#[verifier::reject_recursive_types(R)]
pub struct ExEither<L, R>(Either<L, R>);

/// Size in bytes of the inline part of [`DefaultStorage`]: sixteen words of
/// eight bytes.
pub const DEFAULT_STORAGE_SIZE: usize = 128;

/// Alignment in bytes of the inline part of [`DefaultStorage`]: one word.
pub const DEFAULT_STORAGE_ALIGN: usize = 8;

/// The storage used where none is chosen: inline when the value fits sixteen
/// words, on the heap otherwise.
pub type DefaultStorage = Either<Raw<DEFAULT_STORAGE_SIZE, DEFAULT_STORAGE_ALIGN>, Box>;

/// A place that holds the bytes of one erased value.
///
/// A storage is live from its construction until `drop_in_place`. While it is
/// live, `bytes` is the object representation it holds, and `ptr` and `ptr_mut`
/// give access to exactly those bytes.
pub trait Storage: Sized {
    /// Whether a value of the given layout can be placed in this kind of
    /// storage. It depends on the layout alone.
    spec fn fits(layout: Layout) -> bool;

    /// Whether the storage has been constructed and not yet torn down.
    spec fn live(&self) -> bool;

    /// The bytes of the stored value.
    spec fn bytes(&self) -> Seq<u8>;

    /// Whether the value lies where this kind of storage places a value of
    /// `layout`. Construction establishes it for the layout of the value, and
    /// nothing changes it afterwards: a value is never moved to another place.
    spec fn placed(&self, layout: Layout) -> bool;

    /// Places `data`, the representation of a `T`, if a `T` fits; hands `data`
    /// back untouched if it does not.
    fn try_new<T>(data: Vec<u8>) -> (r: Result<Self, Vec<u8>>)
        requires
            data@.len() == layout_of::<T>().size,
        ensures
            r is Ok <==> Self::fits(layout_of::<T>()),
            r matches Ok(s) ==> s.live() && s.bytes() == data@ && s.placed(layout_of::<T>()),
            r matches Err(d) ==> d@ == data@,
    ;

    /// Places `data`, the representation of a `T` that fits.
    fn new<T>(data: Vec<u8>) -> (s: Self)
        requires
            data@.len() == layout_of::<T>().size,
            Self::fits(layout_of::<T>()),
        ensures
            s.live(),
            s.bytes() == data@,
            s.placed(layout_of::<T>()),
    ;

    /// Decides `fits`.
    fn admits(layout: Layout) -> (fits: bool)
        ensures
            fits == Self::fits(layout),
    ;

    /// Whether the storage is live.
    fn is_live(&self) -> (live: bool)
        ensures
            live == self.live(),
    ;

    /// The stored bytes.
    fn ptr(&self) -> (p: &[u8])
        requires
            self.live(),
        ensures
            p@ == self.bytes(),
    ;

    /// The stored bytes, for writing in place. What is written through the
    /// result is what the storage holds afterwards.
    fn ptr_mut(&mut self) -> (p: &mut [u8])
        requires
            old(self).live(),
        ensures
            p@ == old(self).bytes(),
            final(self).live(),
            final(self).bytes() == final(p)@,
            forall|any: Layout| #[trigger] final(self).placed(any) == old(self).placed(any),
    ;

    /// Tears the storage down. `layout` is the layout of the value it was
    /// constructed with, whose own destructor has already run.
    fn drop_in_place(&mut self, layout: Layout)
        requires
            old(self).live(),
            layout.size == old(self).bytes().len(),
        ensures
            !final(self).live(),
            forall|any: Layout| #[trigger] final(self).placed(any) == old(self).placed(any),
    ;
}

/// A storage that can take over an existing heap allocation.
pub trait FromBox: Storage {
    /// Takes over `boxed`, which holds the representation of a `T`. The value
    /// stays in that allocation, also where the storage would have placed a
    /// `T` elsewhere.
    fn from_box<T>(boxed: StdBox<[u8]>) -> (s: Self)
        requires
            boxed@.len() == layout_of::<T>().size,
        ensures
            s.live(),
            s.bytes() == boxed@,
            Self::fits(layout_of::<T>()),
    ;
}

/// An inline storage: a buffer of `SIZE` bytes for values aligned to at most
/// `ALIGN`.
#[derive(Debug)]
pub struct Raw<const SIZE: usize, const ALIGN: usize> {
    data: [u8; SIZE],
    len: usize,
    live: bool,
}

impl<const SIZE: usize, const ALIGN: usize> Raw<SIZE, ALIGN> {
    /// Whether a `T` fits: it is no larger than `SIZE` and needs no more than
    /// `ALIGN`.
    pub fn can_store<T>() -> (b: bool)
        ensures
            b == layout_of::<T>().fits(SIZE, ALIGN),
    {
        Layout::new::<T>().fits_in(SIZE, ALIGN)
    }

    /// Copies `data` to the front of a fresh buffer.
    fn new_unchecked(data: Vec<u8>) -> (s: Self)
        requires
            data@.len() <= SIZE,
        ensures
            s.live(),
            s.bytes() == data@,
    {
        let mut buf = [0u8; SIZE];
        let len = data.len();
        let mut i: usize = 0;
        while i < len
            invariant
                len == data@.len(),
                len <= SIZE,
                i <= len,
                forall|j: int| 0 <= j < i ==> buf@[j] == data@[j],
            decreases len - i,
        {
            buf[i] = data[i];
            i += 1;
        }
        let s = Raw { data: buf, len, live: true };
        assert(s.bytes() =~= data@);
        s
    }

    /// Places `data`, the representation of a `T` that fits.
    pub fn new<T>(data: Vec<u8>) -> (s: Self)
        requires
            data@.len() == layout_of::<T>().size,
            layout_of::<T>().fits(SIZE, ALIGN),
        ensures
            s.live(),
            s.bytes() == data@,
            s.placed(layout_of::<T>()),
    {
        Self::new_unchecked(data)
    }
}

impl<const SIZE: usize, const ALIGN: usize> Storage for Raw<SIZE, ALIGN> {
    open spec fn fits(layout: Layout) -> bool {
        layout.fits(SIZE, ALIGN)
    }

    closed spec fn live(&self) -> bool {
        self.live && self.len <= SIZE
    }

    closed spec fn bytes(&self) -> Seq<u8> {
        self.data@.subrange(0, self.len as int)
    }

    open spec fn placed(&self, layout: Layout) -> bool {
        layout.fits(SIZE, ALIGN)
    }

    fn try_new<T>(data: Vec<u8>) -> (r: Result<Self, Vec<u8>>) {
        if !Self::can_store::<T>() {
            return Err(data);
        }
        Ok(Self::new_unchecked(data))
    }

    fn new<T>(data: Vec<u8>) -> (s: Self) {
        Self::new_unchecked(data)
    }

    fn admits(layout: Layout) -> (fits: bool) {
        layout.fits_in(SIZE, ALIGN)
    }

    fn is_live(&self) -> (live: bool) {
        self.live && self.len <= SIZE
    }

    fn ptr(&self) -> (p: &[u8]) {
        vstd::slice::slice_subrange(self.data.as_slice(), 0, self.len)
    }

    fn ptr_mut(&mut self) -> (p: &mut [u8]) {
        let (head, _tail) = self.data.split_at_mut(self.len);
        proof {
            assert(final(self).data@.subrange(0, final(self).len as int) =~= final(head)@);
        }
        head
    }

    fn drop_in_place(&mut self, layout: Layout) {
        self.live = false;
    }
}

/// A heap storage: the bytes live in one allocation that the storage owns.
#[derive(Debug)]
pub struct Box {
    data: Vec<u8>,
    live: bool,
}

impl Box {
    /// Takes over `data`, an allocation that holds the representation of a `T`.
    pub fn new_box<T>(data: StdBox<[u8]>) -> (s: Self)
        requires
            data@.len() == layout_of::<T>().size,
        ensures
            s.live(),
            s.bytes() == data@,
    {
        Box { data: data.into_vec(), live: true }
    }
}

impl Storage for Box {
    open spec fn fits(layout: Layout) -> bool {
        true
    }

    closed spec fn live(&self) -> bool {
        self.live
    }

    closed spec fn bytes(&self) -> Seq<u8> {
        self.data@
    }

    open spec fn placed(&self, layout: Layout) -> bool {
        true
    }

    fn try_new<T>(data: Vec<u8>) -> (r: Result<Self, Vec<u8>>) {
        Ok(Self::new::<T>(data))
    }

    fn new<T>(data: Vec<u8>) -> (s: Self) {
        Box { data, live: true }
    }

    fn admits(layout: Layout) -> (fits: bool) {
        true
    }

    fn is_live(&self) -> (live: bool) {
        self.live
    }

    fn ptr(&self) -> (p: &[u8]) {
        self.data.as_slice()
    }

    fn ptr_mut(&mut self) -> (p: &mut [u8]) {
        self.data.as_mut_slice()
    }

    /// Gives the allocation back, unless the value had no bytes and so no
    /// allocation.
    fn drop_in_place(&mut self, layout: Layout)
        ensures
            final(self).bytes().len() == 0,
    {
        if layout.size != 0 {
            self.data = Vec::new();
        }
        self.live = false;
    }
}

impl FromBox for Box {
    fn from_box<T>(boxed: StdBox<[u8]>) -> (s: Self) {
        Self::new_box::<T>(boxed)
    }
}

impl<S1: Storage, S2: Storage> Storage for Either<S1, S2> {
    open spec fn fits(layout: Layout) -> bool {
        S1::fits(layout) || S2::fits(layout)
    }

    open spec fn live(&self) -> bool {
        match self {
            Either::Left(s) => s.live(),
            Either::Right(s) => s.live(),
        }
    }

    open spec fn bytes(&self) -> Seq<u8> {
        match self {
            Either::Left(s) => s.bytes(),
            Either::Right(s) => s.bytes(),
        }
    }

    /// Left when the value fits there, right when it does not.
    open spec fn placed(&self, layout: Layout) -> bool {
        match self {
            Either::Left(s) => S1::fits(layout) && s.placed(layout),
            Either::Right(s) => !S1::fits(layout) && s.placed(layout),
        }
    }

    /// The value goes left when it fits there, right when it fits only there.
    fn try_new<T>(data: Vec<u8>) -> (r: Result<Self, Vec<u8>>)
        ensures
            r matches Ok(s) ==> (s is Left <==> S1::fits(layout_of::<T>())),
    {
        match S1::try_new::<T>(data) {
            Ok(s) => Ok(Either::Left(s)),
            Err(data) => match S2::try_new::<T>(data) {
                Ok(s) => Ok(Either::Right(s)),
                Err(data) => Err(data),
            },
        }
    }

    /// The value goes left when it fits there, right otherwise.
    fn new<T>(data: Vec<u8>) -> (s: Self)
        ensures
            s is Left <==> S1::fits(layout_of::<T>()),
    {
        match S1::try_new::<T>(data) {
            Ok(s) => Either::Left(s),
            Err(data) => Either::Right(S2::new::<T>(data)),
        }
    }

    fn admits(layout: Layout) -> (fits: bool) {
        S1::admits(layout) || S2::admits(layout)
    }

    fn is_live(&self) -> (live: bool) {
        match self {
            Either::Left(s) => s.is_live(),
            Either::Right(s) => s.is_live(),
        }
    }

    fn ptr(&self) -> (p: &[u8]) {
        match self {
            Either::Left(s) => s.ptr(),
            Either::Right(s) => s.ptr(),
        }
    }

    /// Writing through the result never changes the side the value is on.
    fn ptr_mut(&mut self) -> (p: &mut [u8])
        ensures
            (*final(self) is Left) <==> (*old(self) is Left),
    {
        match self {
            Either::Left(s) => s.ptr_mut(),
            Either::Right(s) => s.ptr_mut(),
        }
    }

    /// Tears down the side the value is on; the side does not change.
    fn drop_in_place(&mut self, layout: Layout)
        ensures
            (*final(self) is Left) <==> (*old(self) is Left),
    {
        match self {
            Either::Left(s) => s.drop_in_place(layout),
            Either::Right(s) => s.drop_in_place(layout),
        }
    }
}

impl<S1: Storage, S2: FromBox> FromBox for Either<S1, S2> {
    /// An allocation that exists already stays where it is: on the right.
    fn from_box<T>(boxed: StdBox<[u8]>) -> (s: Self)
        ensures
            s is Right,
    {
        Either::Right(S2::from_box::<T>(boxed))
    }
}

/// What tearing a container down did.
#[derive(Clone, Copy, PartialEq, Eq, Structural, Debug)]
pub struct Teardown {
    /// Whether the destructor of the stored value was run. It runs at most
    /// once, and before the storage is released.
    pub destroyed: bool,
    /// The layout with which the storage was released.
    pub released: Layout,
}

/// A type-erased object: a storage that holds the bytes of one value, and the
/// dispatch table of that value's concrete type.
///
/// The table is held by reference: every object of one concrete type shares one
/// table. An object is torn down by [`drop`](DynStorage::drop); one that merely
/// goes out of scope gives its memory back without the destructor of the stored
/// value having run.
#[derive(Debug)]
pub struct DynStorage<'v, S: Storage, VT: StorageVTable> {
    inner: S,
    vtable: &'v VT,
}

impl<'v, S: Storage, VT: StorageVTable> DynStorage<'v, S, VT> {
    /// The storage of the object.
    pub closed spec fn spec_inner(&self) -> S {
        self.inner
    }

    /// The dispatch table of the object.
    pub closed spec fn spec_vtable(&self) -> VT {
        *self.vtable
    }

    /// The bytes of the stored value.
    pub open spec fn bytes(&self) -> Seq<u8> {
        self.spec_inner().bytes()
    }

    /// Storage and table describe the same value: the storage is live, it
    /// admits values of the table's layout, and it holds as many bytes as that
    /// layout says.
    pub open spec fn wf(&self) -> bool {
        &&& self.spec_inner().live()
        &&& S::fits(self.spec_vtable().spec_layout())
        &&& self.spec_inner().bytes().len() == self.spec_vtable().spec_layout().size
    }

    /// Pairs a storage with the dispatch table of the value it holds.
    pub fn from_raw_parts(inner: S, vtable: &'v VT) -> (object: Self)
        requires
            inner.live(),
            S::fits(vtable.spec_layout()),
            inner.bytes().len() == vtable.spec_layout().size,
        ensures
            object.spec_inner() == inner,
            object.spec_vtable() == *vtable,
            object.wf(),
    {
        DynStorage { inner, vtable }
    }

    /// Whether the object is well formed: whether it can still be used.
    pub fn is_wf(&self) -> (wf: bool)
        ensures
            wf == self.wf(),
    {
        let layout = self.vtable.layout();
        self.inner.is_live() && S::admits(layout) && self.inner.ptr().len() == layout.size
    }

    /// The dispatch table.
    pub fn vtable(&self) -> (vtable: &'v VT)
        ensures
            *vtable == self.spec_vtable(),
    {
        self.vtable
    }

    /// The storage.
    pub fn inner(&self) -> (inner: &S)
        ensures
            *inner == self.spec_inner(),
    {
        &self.inner
    }

    /// The storage, for writing. The table stays as it is.
    pub fn inner_mut(&mut self) -> (inner: &mut S)
        ensures
            *inner == old(self).spec_inner(),
            final(self).spec_inner() == *final(inner),
            final(self).spec_vtable() == old(self).spec_vtable(),
    {
        &mut self.inner
    }

    /// Tears the object down: runs the destructor of the stored value on its
    /// bytes, once, if the table records one, and then releases the storage
    /// with the table's layout. Afterwards the object is no longer well formed,
    /// so that nothing can be done with it, and it cannot be torn down again.
    pub fn drop<D: Fn(&mut [u8])>(&mut self) -> (teardown: Teardown) where
        VT: StorageVTable<Destructor = D>,

        requires
            old(self).wf(),
            old(self).spec_vtable().spec_drop_in_place() matches Some(d) ==> {
                &&& forall|p: &mut [u8]| p@ == old(self).bytes() ==> #[trigger] d.requires((p,))
                &&& forall|p: &mut [u8]|
                    p@ == old(self).bytes() && #[trigger] d.ensures((p,), ()) ==> final(p)@.len()
                        == p@.len()
            },
        ensures
            teardown.destroyed <==> old(self).spec_vtable().spec_drop_in_place() is Some,
            teardown.released == old(self).spec_vtable().spec_layout(),
            old(self).spec_vtable().spec_drop_in_place() matches Some(d) ==> exists|
                p: &mut [u8],
            | p@ == old(self).bytes() && #[trigger] d.ensures((p,), ()),
            !final(self).spec_inner().live(),
            !final(self).wf(),
            final(self).spec_vtable() == old(self).spec_vtable(),
            forall|any: Layout| #[trigger]
                final(self).spec_inner().placed(any) == old(self).spec_inner().placed(any),
    {
        let mut destroyed = false;
        if let Some(drop_inner) = self.vtable.drop_in_place() {
            drop_inner(self.inner.ptr_mut());
            destroyed = true;
        }
        let layout = self.vtable.layout();
        self.inner.drop_in_place(layout);
        Teardown { destroyed, released: layout }
    }
}

/// Where an adaptive storage with an inline part of `SIZE` bytes puts a value
/// whose alignment the inline part admits: inline when the value has at most
/// `SIZE` bytes, on the heap when it has more.
pub proof fn lemma_adaptive_placement<const SIZE: usize, const ALIGN: usize>(
    storage: Either<Raw<SIZE, ALIGN>, Box>,
    layout: Layout,
)
    requires
        storage.placed(layout),
        layout.align <= ALIGN,
    ensures
        layout.size <= SIZE ==> storage is Left,
        layout.size > SIZE ==> storage is Right,
        <Either<Raw<SIZE, ALIGN>, Box> as Storage>::fits(layout),
{
}

} // verus!
