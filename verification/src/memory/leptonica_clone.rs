use super::leptonica_destroy::LeptonicaDestroy;
use crate::heap::Heap;
use vstd::prelude::*;

verus! {

/// How the native library clones this entity kind's memory: a clone is a
/// pure reference-count increment that hands back a new alias of the same
/// storage, leaving the original valid and unchanged.
///
/// Every clone must eventually be paired with one destroy to give the new
/// reference back.
pub trait LeptonicaClone: LeptonicaDestroy {
    /// Take one more reference on the designated handle and return a new
    /// alias of it.
    fn clone_handle(&mut self, heap: &mut Heap) -> (r: Self)
        requires
            old(self).shape_wf(*old(heap)),
            old(heap).wf(),
            old(heap).live(old(self).handle()),
            old(heap).can_create(),
        ensures
            *final(self) == *old(self),
            r == *old(self),
            final(heap).wf(),
            Heap::incref_post(*old(heap), old(self).handle(), *final(heap)),
    ;
}

} // verus!
