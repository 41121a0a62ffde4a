use crate::heap::Heap;
use vstd::prelude::*;

verus! {

/// How the native library frees this entity kind's memory.
///
/// A destroy gives back one reference on the entity's handle; the last
/// release frees the resource (and, for an array, releases each stored
/// handle once).  Every destroy must be paired with exactly one earlier
/// create or clone of the same handle — the owning wrappers arrange that
/// pairing, and a `BorrowedFrom` view never destroys at all.
pub trait LeptonicaDestroy: Sized {
    /// The store handle this entity designates.
    spec fn handle(&self) -> int;

    /// The handle designates a slot of `heap` holding this entity kind's
    /// resource.
    spec fn shape_wf(&self, heap: Heap) -> bool;

    /// The shape depends only on the stored resources, so any store change
    /// that keeps every resource keeps the shape; it also keeps the handle
    /// inside the old slot range.
    proof fn shape_preserved(&self, pre: Heap, post: Heap)
        requires
            self.shape_wf(pre),
            post.n_slots() >= pre.n_slots(),
            forall|i: int| 0 <= i < pre.n_slots() ==> #[trigger] post.res(i) == pre.res(i),
        ensures
            self.shape_wf(post),
            0 <= self.handle() < pre.n_slots(),
    ;

    /// Release one reference on the designated handle.
    fn destroy(&mut self, heap: &mut Heap)
        requires
            old(self).shape_wf(*old(heap)),
            old(heap).wf(),
            old(heap).release_pre(old(self).handle()),
        ensures
            *final(self) == *old(self),
            final(heap).wf(),
            Heap::release_post(*old(heap), old(self).handle(), *final(heap)),
    ;
}

} // verus!
