//! What every dispatch table records about its concrete type, and the helpers
//! that build an object in a slot and move a value out of its storage.

use crate::layout::{layout_of, Layout};
use crate::storage::{DynStorage, Storage};
use core::marker::PhantomData;
use vstd::slice::slice_to_vec;
use vstd::prelude::*;

verus! {

/// `core::mem::needs_drop::<T>`: whether dropping a `T` may run code. Nothing
/// is claimed of the answer.
#[verifier::external_body]
fn needs_drop<T>() -> bool {
    core::mem::needs_drop::<T>()
}

/// What a container needs from the dispatch table of any capability: how to
/// destroy the stored value, and its layout.
pub trait StorageVTable {
    /// The type of the destructor: a function that destroys a value in place,
    /// given its bytes.
    type Destructor;

    /// The destructor the table records, if the concrete type has one.
    spec fn spec_drop_in_place(&self) -> Option<Self::Destructor>;

    /// The layout the table records.
    spec fn spec_layout(&self) -> Layout;

    /// The destructor of the concrete type; `None` when destroying it runs no
    /// code.
    fn drop_in_place(&self) -> (d: Option<&Self::Destructor>)
        ensures
            d is Some <==> self.spec_drop_in_place() is Some,
            d matches Some(f) ==> *f == self.spec_drop_in_place()->0,
    ;

    /// The layout of the concrete type.
    fn layout(&self) -> (layout: Layout)
        ensures
            layout == self.spec_layout(),
    ;
}

/// The metadata part of a dispatch table: destructor and layout.
#[derive(Debug)]
pub struct DynVTable<D> {
    drop_in_place: Option<D>,
    layout: Layout,
}

impl<D: Fn(&mut [u8])> DynVTable<D> {
    /// The table with exactly these parts: it records `destructor` when
    /// `needs_drop` holds and no destructor otherwise.
    pub fn from_parts(needs_drop: bool, destructor: D, layout: Layout) -> (vtable: Self)
        ensures
            vtable.spec_layout() == layout,
            vtable.spec_drop_in_place() == if needs_drop {
                Some(destructor)
            } else {
                None
            },
    {
        DynVTable { drop_in_place: if needs_drop { Some(destructor) } else { None }, layout }
    }

    /// The table of the concrete type `T`, whose values `destructor` destroys.
    /// It records the layout of `T`, and `destructor` if dropping a `T` may run
    /// code.
    pub fn new<S: Storage, T>(destructor: D) -> (vtable: Self)
        ensures
            vtable.spec_layout() == layout_of::<T>(),
            vtable.spec_drop_in_place() == Some(destructor)
                || vtable.spec_drop_in_place() == None::<D>,
    {
        Self::from_parts(needs_drop::<T>(), destructor, Layout::new::<T>())
    }
}

impl<D: Fn(&mut [u8])> StorageVTable for DynVTable<D> {
    type Destructor = D;

    closed spec fn spec_drop_in_place(&self) -> Option<D> {
        self.drop_in_place
    }

    closed spec fn spec_layout(&self) -> Layout {
        self.layout
    }

    fn drop_in_place(&self) -> (d: Option<&D>) {
        self.drop_in_place.as_ref()
    }

    fn layout(&self) -> (layout: Layout) {
        self.layout
    }
}

/// A storage whose value is being moved out: the bytes can be read once more,
/// and the storage is then released without running the value's destructor.
pub struct StorageMoved<'a, S: Storage, T> {
    storage: &'a mut S,
    _phantom: PhantomData<T>,
}

impl<'a, S: Storage, T> StorageMoved<'a, S, T> {
    /// The storage the value is moved out of.
    pub closed spec fn spec_storage(&self) -> &'a mut S {
        self.storage
    }

    /// Claims `storage`, which holds the representation of a `T`.
    pub fn new(storage: &'a mut S) -> (moved: Self)
        requires
            old(storage).live(),
            old(storage).bytes().len() == layout_of::<T>().size,
        ensures
            *moved.spec_storage() == *old(storage),
            *final(moved.spec_storage()) == *final(storage),
    {
        StorageMoved { storage, _phantom: PhantomData }
    }

    /// The bytes of the value.
    pub fn read(&self) -> (bytes: Vec<u8>)
        requires
            self.spec_storage().live(),
        ensures
            bytes@ == self.spec_storage().bytes(),
    {
        slice_to_vec(self.storage.ptr())
    }

    /// Releases the storage with the layout of `T`. The destructor of the value
    /// is not run: the value has a new owner.
    pub fn drop(self)
        requires
            self.spec_storage().live(),
            self.spec_storage().bytes().len() == layout_of::<T>().size,
        ensures
            !final(self.spec_storage()).live(),
            forall|any: Layout| #[trigger]
                final(self.spec_storage()).placed(any) == self.spec_storage().placed(any),
    {
        let layout = Layout::new::<T>();
        self.storage.drop_in_place(layout);
    }
}

/// Builds an object from `data`, the representation of a `T`, and `vtable`,
/// the table of `T`, in `storage`, and gives access to its bytes in place.
/// An object that `storage` held before is torn down first.
pub fn insert_into_storage<'a, 'v, S: Storage, T, D: Fn(&mut [u8])>(
    data: Vec<u8>,
    vtable: &'v DynVTable<D>,
    storage: &'a mut Option<DynStorage<'v, S, DynVTable<D>>>,
) -> (r: &'a mut [u8])
    requires
        data@.len() == layout_of::<T>().size,
        S::fits(layout_of::<T>()),
        vtable.spec_layout() == layout_of::<T>(),
        *old(storage) matches Some(previous) ==> {
            &&& previous.wf()
            &&& previous.spec_vtable().spec_drop_in_place() matches Some(d) ==> {
                &&& forall|p: &mut [u8]| p@ == previous.bytes() ==> #[trigger] d.requires((p,))
                &&& forall|p: &mut [u8]|
                    p@ == previous.bytes() && #[trigger] d.ensures((p,), ()) ==> final(p)@.len()
                        == p@.len()
            }
        },
    ensures
        r@ == data@,
        *final(storage) matches Some(object) && {
            &&& object.spec_vtable() == *vtable
            &&& object.spec_inner().live()
            &&& object.spec_inner().placed(layout_of::<T>())
            &&& object.bytes() == final(r)@
        },
        *old(storage) matches Some(previous) ==> (
            previous.spec_vtable().spec_drop_in_place() matches Some(d) ==> exists|p: &mut [u8]|
                p@ == previous.bytes() && #[trigger] d.ensures((p,), ())
        ),
{
    DynStorage::insert::<T, D>(storage, data, vtable)
}

/// As [`insert_into_storage`], for an object that is not moved once it is in
/// place.
pub fn insert_into_storage_pinned<'a, 'v, S: Storage, T, D: Fn(&mut [u8])>(
    data: Vec<u8>,
    vtable: &'v DynVTable<D>,
    storage: &'a mut Option<DynStorage<'v, S, DynVTable<D>>>,
) -> (r: &'a mut [u8])
    requires
        data@.len() == layout_of::<T>().size,
        S::fits(layout_of::<T>()),
        vtable.spec_layout() == layout_of::<T>(),
        *old(storage) matches Some(previous) ==> {
            &&& previous.wf()
            &&& previous.spec_vtable().spec_drop_in_place() matches Some(d) ==> {
                &&& forall|p: &mut [u8]| p@ == previous.bytes() ==> #[trigger] d.requires((p,))
                &&& forall|p: &mut [u8]|
                    p@ == previous.bytes() && #[trigger] d.ensures((p,), ()) ==> final(p)@.len()
                        == p@.len()
            }
        },
    ensures
        r@ == data@,
        *final(storage) matches Some(object) && {
            &&& object.spec_vtable() == *vtable
            &&& object.spec_inner().live()
            &&& object.spec_inner().placed(layout_of::<T>())
            &&& object.bytes() == final(r)@
        },
        *old(storage) matches Some(previous) ==> (
            previous.spec_vtable().spec_drop_in_place() matches Some(d) ==> exists|p: &mut [u8]|
                p@ == previous.bytes() && #[trigger] d.ensures((p,), ())
        ),
{
    insert_into_storage::<S, T, D>(data, vtable, storage)
}

} // verus!
