//! A result that may be there already: the fast path around a stored
//! computation.

use crate::layout::Layout;
use crate::private::StorageVTable;
use crate::storage::{DynStorage, Storage};
use crate::vtables::FutureVTable;
use core::task::Poll;
use vstd::pervasive::unreached;
use vstd::prelude::*;

verus! {

/// Either a result that was computed synchronously, or a computation that is
/// still to be polled, or nothing any more: the result has been handed out.
#[derive(Debug)]
pub enum TrySync<V, F> {
    /// The result is there; the first poll hands it out.
    Sync(V),
    /// The computation; every poll is passed on to it.
    Async(F),
    /// The result has been handed out. Polling again is an error of the caller.
    Consumed,
}

impl<'v, V, S: Storage, D: Fn(&mut [u8]), P: Fn(&mut [u8]) -> Poll<V>> TrySync<
    V,
    DynStorage<'v, S, FutureVTable<D, P>>,
> {
    /// Polls once. A result that is there is handed out at once, without any
    /// computation being polled, and `self` is consumed from then on. A
    /// computation is polled, and what it signals is returned unchanged.
    pub fn poll(&mut self) -> (r: Poll<V>)
        requires
            !(*old(self) is Consumed),
            *old(self) matches TrySync::Async(object) ==> {
                &&& object.wf()
                &&& forall|p: &mut [u8]|
                    p@ == object.bytes() ==> #[trigger] object.spec_vtable().spec_poll().requires(
                        (p,),
                    )
                &&& forall|p: &mut [u8], r: Poll<V>|
                    p@ == object.bytes() && #[trigger] object.spec_vtable().spec_poll().ensures(
                        (p,),
                        r,
                    ) ==> final(p)@.len() == p@.len()
            },
        ensures
            *old(self) matches TrySync::Sync(v) ==> r == Poll::Ready(v) && *final(self)
                is Consumed,
            *old(self) matches TrySync::Async(before) ==> *final(self) matches TrySync::Async(
                after,
            ) && {
                &&& after.wf()
                &&& after.spec_vtable() == before.spec_vtable()
                &&& forall|any: Layout| #[trigger]
                    after.spec_inner().placed(any) == before.spec_inner().placed(any)
                &&& exists|p: &mut [u8]|
                    p@ == before.bytes() && final(p)@ == after.bytes()
                        && #[trigger] before.spec_vtable().spec_poll().ensures((p,), r)
            },
    {
        match self {
            TrySync::Async(object) => object.poll::<V>(),
            _ => {
                let mut taken = TrySync::Consumed;
                core::mem::swap(self, &mut taken);
                match taken {
                    TrySync::Sync(v) => Poll::Ready(v),
                    _ => unreached(),
                }
            },
        }
    }
}

} // verus!
