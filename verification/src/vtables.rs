//! Dispatch tables of the built-in capabilities, and what a container can do
//! through each: recover the concrete value, resolve a single eventual value,
//! step through a lazy sequence.
//!
//! A capability method is a function on the bytes of the stored value. The
//! container runs it on the place its storage hands out and passes the result
//! on unchanged.

use crate::layout::{layout_of, Layout};
use crate::private::{DynVTable, StorageVTable};
use crate::storage::{DynStorage, Storage};
use core::any::TypeId;
use core::task::Poll;
use vstd::prelude::*;
use vstd::slice::slice_to_vec;

verus! {

/// `core::any::TypeId`: the identity of a type.
#[verifier::external_type_specification]
#[verifier::external_body]
pub struct ExTypeId(TypeId);

/// `core::task::Poll`, with its two variants `Ready` and `Pending`.
#[verifier::external_type_specification]
#[verifier::reject_recursive_types(T)]
pub struct ExPoll<T>(Poll<T>);

/// `TypeId::of::<T>`: the identity of the type `T`. Nothing is claimed of it.
#[verifier::external_body]
fn type_id_of<T: 'static>() -> TypeId {
    TypeId::of::<T>()
}

/// `TypeId`'s `==`: two identities compare equal exactly when they are the
/// same identity.
#[verifier::external_body]
fn same_type(a: &TypeId, b: &TypeId) -> (same: bool)
    ensures
        same == (*a == *b),
{
    a == b
}

/// The dispatch table of the "any concrete type" capability: the metadata and
/// the identity of the concrete type.
#[derive(Debug)]
pub struct AnyVTable<D> {
    dyn_vtable: DynVTable<D>,
    type_id: TypeId,
}

impl<D: Fn(&mut [u8])> AnyVTable<D> {
    /// The identity the table records.
    pub closed spec fn spec_type_id(&self) -> TypeId {
        self.type_id
    }

    /// The metadata part of the table.
    pub closed spec fn spec_dyn_vtable(&self) -> DynVTable<D> {
        self.dyn_vtable
    }

    /// The table with exactly these parts.
    pub fn from_parts(dyn_vtable: DynVTable<D>, type_id: TypeId) -> (vtable: Self)
        ensures
            vtable.spec_dyn_vtable() == dyn_vtable,
            vtable.spec_layout() == dyn_vtable.spec_layout(),
            vtable.spec_drop_in_place() == dyn_vtable.spec_drop_in_place(),
            vtable.spec_type_id() == type_id,
    {
        AnyVTable { dyn_vtable, type_id }
    }

    /// The table of the concrete type `T`, whose values `destructor` destroys:
    /// the metadata of `T` and the identity of `T`.
    pub fn new<S: Storage, T: 'static>(destructor: D) -> (vtable: Self)
        ensures
            vtable.spec_layout() == layout_of::<T>(),
            vtable.spec_drop_in_place() == Some(destructor)
                || vtable.spec_drop_in_place() == None::<D>,
    {
        Self::from_parts(DynVTable::new::<S, T>(destructor), type_id_of::<T>())
    }

    /// The identity of the concrete type.
    pub fn type_id(&self) -> (id: TypeId)
        ensures
            id == self.spec_type_id(),
    {
        self.type_id
    }
}

impl<D: Fn(&mut [u8])> StorageVTable for AnyVTable<D> {
    type Destructor = D;

    open spec fn spec_drop_in_place(&self) -> Option<D> {
        self.spec_dyn_vtable().spec_drop_in_place()
    }

    open spec fn spec_layout(&self) -> Layout {
        self.spec_dyn_vtable().spec_layout()
    }

    fn drop_in_place(&self) -> (d: Option<&D>) {
        self.dyn_vtable.drop_in_place()
    }

    fn layout(&self) -> (layout: Layout) {
        self.dyn_vtable.layout()
    }
}

impl<'v, S: Storage, D: Fn(&mut [u8])> DynStorage<'v, S, AnyVTable<D>> {
    /// The identity of the concrete type the object was made from.
    pub open spec fn spec_type_id(&self) -> TypeId {
        self.spec_vtable().spec_type_id()
    }

    /// Whether `id` is the identity of the concrete type the object was made
    /// from.
    pub open spec fn spec_is(&self, id: TypeId) -> bool {
        id == self.spec_type_id()
    }

    /// What `downcast` returns: the bytes of the value if `id` is the identity
    /// of its type, the object itself if not.
    pub open spec fn spec_downcast(self, id: TypeId) -> Result<Seq<u8>, Self> {
        if id == self.spec_type_id() {
            Ok(self.bytes())
        } else {
            Err(self)
        }
    }

    /// An object gives back the bytes it holds when it is downcast to the type
    /// it was made from: what went in comes out.
    pub proof fn lemma_round_trip(self, data: Seq<u8>)
        requires
            self.bytes() == data,
        ensures
            self.spec_is(self.spec_type_id()),
            self.spec_downcast(self.spec_type_id()) == Ok::<Seq<u8>, Self>(data),
    {
    }

    /// An object is of exactly one type. Downcasting it to any other hands the
    /// very same object back, which still downcasts to its own type and then
    /// gives its bytes.
    pub proof fn lemma_downcast_exclusive(self, id: TypeId)
        ensures
            self.spec_is(id) <==> id == self.spec_type_id(),
            id != self.spec_type_id() ==> self.spec_downcast(id) == Err::<Seq<u8>, Self>(self),
            id != self.spec_type_id() ==> (self.spec_downcast(id) matches Err(back)
                && back.spec_downcast(self.spec_type_id()) == Ok::<Seq<u8>, Self>(
                self.bytes(),
            )),
    {
    }

    /// The identity of the concrete type the object was made from.
    pub fn type_id(&self) -> (id: TypeId)
        ensures
            id == self.spec_type_id(),
    {
        self.vtable().type_id()
    }

    /// Whether `id` is the identity of the concrete type.
    pub fn is(&self, id: TypeId) -> (b: bool)
        ensures
            b == self.spec_is(id),
    {
        let own = self.type_id();
        same_type(&own, &id)
    }

    /// The bytes of the value if `id` is the identity of its type, `None` if
    /// not.
    pub fn downcast_ref(&self, id: TypeId) -> (r: Option<&[u8]>)
        requires
            self.wf(),
        ensures
            r is Some <==> id == self.spec_type_id(),
            r matches Some(p) ==> p@ == self.bytes(),
    {
        if self.is(id) {
            Some(self.inner().ptr())
        } else {
            None
        }
    }

    /// The bytes of the value, for writing in place, if `id` is the identity of
    /// its type; `None`, and the object unchanged, if not.
    pub fn downcast_mut(&mut self, id: TypeId) -> (r: Option<&mut [u8]>)
        requires
            old(self).wf(),
        ensures
            r is Some <==> id == old(self).spec_type_id(),
            final(self).spec_vtable() == old(self).spec_vtable(),
            final(self).spec_inner().live(),
            forall|any: Layout| #[trigger]
                final(self).spec_inner().placed(any) == old(self).spec_inner().placed(any),
            r matches Some(p) ==> p@ == old(self).bytes() && final(self).bytes() == final(p)@,
            r is None ==> *final(self) == *old(self),
    {
        if self.is(id) {
            Some(self.inner_mut().ptr_mut())
        } else {
            None
        }
    }

    /// Moves the value out if `id` is the identity of its type: its bytes go to
    /// the caller, who now owns the value, so its destructor is not run, and
    /// the storage is released. Otherwise hands the object back unchanged.
    pub fn downcast(self, id: TypeId) -> (r: Result<Vec<u8>, Self>)
        requires
            self.wf(),
        ensures
            match r {
                Ok(bytes) => self.spec_downcast(id) == Ok::<Seq<u8>, Self>(bytes@),
                Err(object) => self.spec_downcast(id) == Err::<Seq<u8>, Self>(object),
            },
    {
        if self.is(id) {
            let mut this = self;
            let bytes = slice_to_vec(this.inner().ptr());
            let layout = this.vtable().layout();
            this.inner_mut().drop_in_place(layout);
            Ok(bytes)
        } else {
            Err(self)
        }
    }
}

/// The dispatch table of the "single eventual value" capability: the metadata
/// and the function that polls the concrete computation.
#[derive(Debug)]
pub struct FutureVTable<D, P> {
    dyn_vtable: DynVTable<D>,
    poll: P,
}

impl<D: Fn(&mut [u8]), P> FutureVTable<D, P> {
    /// The metadata part of the table.
    pub closed spec fn spec_dyn_vtable(&self) -> DynVTable<D> {
        self.dyn_vtable
    }

    /// The function that polls the concrete computation.
    pub closed spec fn spec_poll(&self) -> P {
        self.poll
    }

    /// The table with exactly these parts.
    pub fn from_parts(dyn_vtable: DynVTable<D>, poll: P) -> (vtable: Self)
        ensures
            vtable.spec_dyn_vtable() == dyn_vtable,
            vtable.spec_layout() == dyn_vtable.spec_layout(),
            vtable.spec_drop_in_place() == dyn_vtable.spec_drop_in_place(),
            vtable.spec_poll() == poll,
    {
        FutureVTable { dyn_vtable, poll }
    }

    /// The table of the concrete computation `T`, whose values `destructor`
    /// destroys and `poll` polls.
    pub fn new<S: Storage, T>(destructor: D, poll: P) -> (vtable: Self)
        ensures
            vtable.spec_layout() == layout_of::<T>(),
            vtable.spec_drop_in_place() == Some(destructor)
                || vtable.spec_drop_in_place() == None::<D>,
            vtable.spec_poll() == poll,
    {
        Self::from_parts(DynVTable::new::<S, T>(destructor), poll)
    }

    /// The function that polls the concrete computation.
    pub fn poll_fn(&self) -> (poll: &P)
        ensures
            *poll == self.spec_poll(),
    {
        &self.poll
    }
}

impl<D: Fn(&mut [u8]), P> StorageVTable for FutureVTable<D, P> {
    type Destructor = D;

    open spec fn spec_drop_in_place(&self) -> Option<D> {
        self.spec_dyn_vtable().spec_drop_in_place()
    }

    open spec fn spec_layout(&self) -> Layout {
        self.spec_dyn_vtable().spec_layout()
    }

    fn drop_in_place(&self) -> (d: Option<&D>) {
        self.dyn_vtable.drop_in_place()
    }

    fn layout(&self) -> (layout: Layout) {
        self.dyn_vtable.layout()
    }
}

impl<'v, S: Storage, D: Fn(&mut [u8]), P> DynStorage<'v, S, FutureVTable<D, P>> {
    /// Polls the stored computation: runs the table's poll function on the
    /// stored bytes, in place, and returns what it returns.
    pub fn poll<Output>(&mut self) -> (r: Poll<Output>) where P: Fn(&mut [u8]) -> Poll<Output>
        requires
            old(self).wf(),
            forall|p: &mut [u8]|
                p@ == old(self).bytes() ==> #[trigger] old(self).spec_vtable().spec_poll().requires(
                    (p,),
                ),
            forall|p: &mut [u8], r: Poll<Output>|
                p@ == old(self).bytes() && #[trigger] old(self).spec_vtable().spec_poll().ensures(
                    (p,),
                    r,
                ) ==> final(p)@.len() == p@.len(),
        ensures
            final(self).wf(),
            final(self).spec_vtable() == old(self).spec_vtable(),
            forall|any: Layout| #[trigger]
                final(self).spec_inner().placed(any) == old(self).spec_inner().placed(any),
            exists|p: &mut [u8]|
                p@ == old(self).bytes() && final(p)@ == final(self).bytes()
                    && #[trigger] old(self).spec_vtable().spec_poll().ensures((p,), r),
    {
        let poll = self.vtable().poll_fn();
        poll(self.inner_mut().ptr_mut())
    }
}

/// The dispatch table of the "lazy sequence" capability: the metadata and the
/// functions that step the concrete sequence.
#[derive(Debug)]
pub struct IteratorVTable<D, N, H, K> {
    dyn_vtable: DynVTable<D>,
    next: N,
    size_hint: H,
    nth: K,
}

impl<D: Fn(&mut [u8]), N, H, K> IteratorVTable<D, N, H, K> {
    /// The metadata part of the table.
    pub closed spec fn spec_dyn_vtable(&self) -> DynVTable<D> {
        self.dyn_vtable
    }

    /// The function that yields the next item.
    pub closed spec fn spec_next(&self) -> N {
        self.next
    }

    /// The function that bounds the number of items left.
    pub closed spec fn spec_size_hint(&self) -> H {
        self.size_hint
    }

    /// The function that skips items and yields the one after them.
    pub closed spec fn spec_nth(&self) -> K {
        self.nth
    }

    /// The table with exactly these parts.
    pub fn from_parts(dyn_vtable: DynVTable<D>, next: N, size_hint: H, nth: K) -> (vtable: Self)
        ensures
            vtable.spec_dyn_vtable() == dyn_vtable,
            vtable.spec_layout() == dyn_vtable.spec_layout(),
            vtable.spec_drop_in_place() == dyn_vtable.spec_drop_in_place(),
            vtable.spec_next() == next,
            vtable.spec_size_hint() == size_hint,
            vtable.spec_nth() == nth,
    {
        IteratorVTable { dyn_vtable, next, size_hint, nth }
    }

    /// The table of the concrete sequence `T`, whose values `destructor`
    /// destroys and `next`, `size_hint` and `nth` step.
    pub fn new<S: Storage, T>(destructor: D, next: N, size_hint: H, nth: K) -> (vtable: Self)
        ensures
            vtable.spec_layout() == layout_of::<T>(),
            vtable.spec_drop_in_place() == Some(destructor)
                || vtable.spec_drop_in_place() == None::<D>,
            vtable.spec_next() == next,
            vtable.spec_size_hint() == size_hint,
            vtable.spec_nth() == nth,
    {
        Self::from_parts(DynVTable::new::<S, T>(destructor), next, size_hint, nth)
    }

    /// The function that yields the next item.
    pub fn next_fn(&self) -> (next: &N)
        ensures
            *next == self.spec_next(),
    {
        &self.next
    }

    /// The function that bounds the number of items left.
    pub fn size_hint_fn(&self) -> (size_hint: &H)
        ensures
            *size_hint == self.spec_size_hint(),
    {
        &self.size_hint
    }

    /// The function that skips items and yields the one after them.
    pub fn nth_fn(&self) -> (nth: &K)
        ensures
            *nth == self.spec_nth(),
    {
        &self.nth
    }
}

impl<D: Fn(&mut [u8]), N, H, K> StorageVTable for IteratorVTable<D, N, H, K> {
    type Destructor = D;

    open spec fn spec_drop_in_place(&self) -> Option<D> {
        self.spec_dyn_vtable().spec_drop_in_place()
    }

    open spec fn spec_layout(&self) -> Layout {
        self.spec_dyn_vtable().spec_layout()
    }

    fn drop_in_place(&self) -> (d: Option<&D>) {
        self.dyn_vtable.drop_in_place()
    }

    fn layout(&self) -> (layout: Layout) {
        self.dyn_vtable.layout()
    }
}

impl<'v, S: Storage, D: Fn(&mut [u8]), N, H, K> DynStorage<'v, S, IteratorVTable<D, N, H, K>> {
    /// Yields the next item: runs the table's function on the stored bytes, in
    /// place, and returns what it returns.
    pub fn next<Item>(&mut self) -> (r: Option<Item>) where N: Fn(&mut [u8]) -> Option<Item>
        requires
            old(self).wf(),
            forall|p: &mut [u8]|
                p@ == old(self).bytes() ==> #[trigger] old(self).spec_vtable().spec_next().requires(
                    (p,),
                ),
            forall|p: &mut [u8], r: Option<Item>|
                p@ == old(self).bytes() && #[trigger] old(self).spec_vtable().spec_next().ensures(
                    (p,),
                    r,
                ) ==> final(p)@.len() == p@.len(),
        ensures
            final(self).wf(),
            final(self).spec_vtable() == old(self).spec_vtable(),
            forall|any: Layout| #[trigger]
                final(self).spec_inner().placed(any) == old(self).spec_inner().placed(any),
            exists|p: &mut [u8]|
                p@ == old(self).bytes() && final(p)@ == final(self).bytes()
                    && #[trigger] old(self).spec_vtable().spec_next().ensures((p,), r),
    {
        let next = self.vtable().next_fn();
        next(self.inner_mut().ptr_mut())
    }

    /// Bounds the number of items left: runs the table's function on the stored
    /// bytes and returns what it returns.
    pub fn size_hint(&self) -> (r: (usize, Option<usize>)) where
        H: Fn(&[u8]) -> (usize, Option<usize>),

        requires
            self.wf(),
            forall|p: &[u8]|
                p@ == self.bytes() ==> #[trigger] self.spec_vtable().spec_size_hint().requires(
                    (p,),
                ),
        ensures
            exists|p: &[u8]|
                p@ == self.bytes() && #[trigger] self.spec_vtable().spec_size_hint().ensures(
                    (p,),
                    r,
                ),
    {
        let size_hint = self.vtable().size_hint_fn();
        size_hint(self.inner().ptr())
    }

    /// Skips `n` items and yields the one after them: runs the table's function
    /// on the stored bytes, in place, with `n`, and returns what it returns.
    pub fn nth<Item>(&mut self, n: usize) -> (r: Option<Item>) where
        K: Fn(&mut [u8], usize) -> Option<Item>,

        requires
            old(self).wf(),
            forall|p: &mut [u8]|
                p@ == old(self).bytes() ==> #[trigger] old(self).spec_vtable().spec_nth().requires(
                    (p, n),
                ),
            forall|p: &mut [u8], r: Option<Item>|
                p@ == old(self).bytes() && #[trigger] old(self).spec_vtable().spec_nth().ensures(
                    (p, n),
                    r,
                ) ==> final(p)@.len() == p@.len(),
        ensures
            final(self).wf(),
            final(self).spec_vtable() == old(self).spec_vtable(),
            forall|any: Layout| #[trigger]
                final(self).spec_inner().placed(any) == old(self).spec_inner().placed(any),
            exists|p: &mut [u8]|
                p@ == old(self).bytes() && final(p)@ == final(self).bytes()
                    && #[trigger] old(self).spec_vtable().spec_nth().ensures((p, n), r),
    {
        let nth = self.vtable().nth_fn();
        nth(self.inner_mut().ptr_mut(), n)
    }
}

} // verus!
