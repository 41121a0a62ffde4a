use super::leptonica_destroy::LeptonicaDestroy;
use crate::heap::Heap;
use vstd::prelude::*;

verus! {

/// A shared owning wrapper: it holds exactly one reference to its entity's
/// handle and gives it back exactly once, through [`RefCounted::destroy`].
///
/// Access is read-only, because other wrappers may alias the same storage;
/// mutation is reserved to [`super::RefCountedExclusive`].
pub struct RefCounted<T: LeptonicaDestroy> {
    inner: T,
}

impl<T: LeptonicaDestroy> View for RefCounted<T> {
    type V = T;

    closed spec fn view(&self) -> T {
        self.inner
    }
}

impl<T: LeptonicaDestroy> RefCounted<T> {
    /// Wrap an entity one of whose references the caller hands over to the
    /// wrapper (taken by a fresh create, or by a clone as in
    /// `get_box_cloned`).  Wrapping a handle without such a reference of its
    /// own leaves the wrapper's `destroy` unprovable or double-releasing.
    pub fn new(inner: T) -> (r: Self)
        ensures
            r@ == inner,
    {
        RefCounted { inner }
    }

    /// Read-only access to the wrapped entity.
    pub fn inner(&self) -> (r: &T)
        ensures
            *r == self@,
    {
        &self.inner
    }

    /// Give this wrapper's reference back to the store.
    pub fn destroy(self, heap: &mut Heap)
        requires
            self@.shape_wf(*old(heap)),
            old(heap).wf(),
            old(heap).release_pre(self@.handle()),
        ensures
            final(heap).wf(),
            Heap::release_post(*old(heap), self@.handle(), *final(heap)),
    {
        let RefCounted { inner: mut inner } = self;
        inner.destroy(heap);
    }
}

} // verus!
