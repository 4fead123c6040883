//! Building a type-erased object from a value, and reaching its storage.

use crate::layout::layout_of;
use crate::private::StorageVTable;
use crate::storage::{DynStorage, FromBox, Storage};
use std::boxed::Box as StdBox;
use vstd::prelude::*;

verus! {

/// A type-erased object, named by its dispatch table first.
pub type DynObject<'v, VT, S> = DynStorage<'v, S, VT>;

impl<'v, S: Storage, VT: StorageVTable> DynStorage<'v, S, VT> {
    /// Builds the object of `object`, the representation of a `T`, with
    /// `vtable`, the table of `T`: the value goes where `S` places a `T`.
    pub fn new<T>(object: Vec<u8>, vtable: &'v VT) -> (this: Self)
        requires
            object@.len() == layout_of::<T>().size,
            S::fits(layout_of::<T>()),
            vtable.spec_layout() == layout_of::<T>(),
        ensures
            this.wf(),
            this.bytes() == object@,
            this.spec_vtable() == *vtable,
            this.spec_inner().placed(layout_of::<T>()),
    {
        Self::from_raw_parts(S::new::<T>(object), vtable)
    }

    /// Builds the object of `boxed`, an allocation that holds the
    /// representation of a `T`, with `vtable`, the table of `T`. The allocation
    /// is taken over as it is.
    pub fn from_box<T>(boxed: StdBox<[u8]>, vtable: &'v VT) -> (this: Self) where S: FromBox
        requires
            boxed@.len() == layout_of::<T>().size,
            vtable.spec_layout() == layout_of::<T>(),
        ensures
            this.wf(),
            this.bytes() == boxed@,
            this.spec_vtable() == *vtable,
    {
        Self::from_raw_parts(S::from_box::<T>(boxed), vtable)
    }

    /// The storage.
    pub fn storage(&self) -> (storage: &S)
        ensures
            *storage == self.spec_inner(),
    {
        self.inner()
    }

    /// The storage, for a capability that writes to the value and may move it.
    pub fn storage_mut(&mut self) -> (storage: &mut S)
        ensures
            *storage == old(self).spec_inner(),
            final(self).spec_inner() == *final(storage),
            final(self).spec_vtable() == old(self).spec_vtable(),
    {
        self.inner_mut()
    }

    /// The storage, for a capability that writes to a value that must stay
    /// where it is.
    pub fn storage_pinned_mut(&mut self) -> (storage: &mut S)
        ensures
            *storage == old(self).spec_inner(),
            final(self).spec_inner() == *final(storage),
            final(self).spec_vtable() == old(self).spec_vtable(),
    {
        self.inner_mut()
    }

    /// Builds the object of `object`, the representation of a `T`, with
    /// `vtable`, the table of `T`, in `this`, and gives access to its bytes in
    /// place. An object that `this` held before is torn down first.
    pub fn insert<'a, T, D: Fn(&mut [u8])>(
        this: &'a mut Option<Self>,
        object: Vec<u8>,
        vtable: &'v VT,
    ) -> (r: &'a mut [u8]) where VT: StorageVTable<Destructor = D>
        requires
            object@.len() == layout_of::<T>().size,
            S::fits(layout_of::<T>()),
            vtable.spec_layout() == layout_of::<T>(),
            *old(this) matches Some(previous) ==> {
                &&& previous.wf()
                &&& previous.spec_vtable().spec_drop_in_place() matches Some(d) ==> {
                    &&& forall|p: &mut [u8]| p@ == previous.bytes() ==> #[trigger] d.requires((p,))
                    &&& forall|p: &mut [u8]|
                        p@ == previous.bytes() && #[trigger] d.ensures((p,), ()) ==> final(p)@.len()
                            == p@.len()
                }
            },
        ensures
            r@ == object@,
            *final(this) matches Some(inserted) && {
                &&& inserted.spec_vtable() == *vtable
                &&& inserted.spec_inner().live()
                &&& inserted.spec_inner().placed(layout_of::<T>())
                &&& inserted.bytes() == final(r)@
            },
            *old(this) matches Some(previous) ==> (
                previous.spec_vtable().spec_drop_in_place() matches Some(d) ==> exists|
                    p: &mut [u8],
                | p@ == previous.bytes() && #[trigger] d.ensures((p,), ())
            ),
    {
        if let Some(mut previous) = this.take() {
            previous.drop();
        }
        let inserted = this.insert(Self::new::<T>(object, vtable));
        inserted.storage_mut().ptr_mut()
    }

    /// As [`insert`](Self::insert), for an object that is not moved once it is
    /// in place.
    pub fn insert_pinned<'a, T, D: Fn(&mut [u8])>(
        this: &'a mut Option<Self>,
        object: Vec<u8>,
        vtable: &'v VT,
    ) -> (r: &'a mut [u8]) where VT: StorageVTable<Destructor = D>
        requires
            object@.len() == layout_of::<T>().size,
            S::fits(layout_of::<T>()),
            vtable.spec_layout() == layout_of::<T>(),
            *old(this) matches Some(previous) ==> {
                &&& previous.wf()
                &&& previous.spec_vtable().spec_drop_in_place() matches Some(d) ==> {
                    &&& forall|p: &mut [u8]| p@ == previous.bytes() ==> #[trigger] d.requires((p,))
                    &&& forall|p: &mut [u8]|
                        p@ == previous.bytes() && #[trigger] d.ensures((p,), ()) ==> final(p)@.len()
                            == p@.len()
                }
            },
        ensures
            r@ == object@,
            *final(this) matches Some(inserted) && {
                &&& inserted.spec_vtable() == *vtable
                &&& inserted.spec_inner().live()
                &&& inserted.spec_inner().placed(layout_of::<T>())
                &&& inserted.bytes() == final(r)@
            },
            *old(this) matches Some(previous) ==> (
                previous.spec_vtable().spec_drop_in_place() matches Some(d) ==> exists|
                    p: &mut [u8],
                | p@ == previous.bytes() && #[trigger] d.ensures((p,), ())
            ),
    {
        Self::insert::<T, D>(this, object, vtable)
    }
}

} // verus!
