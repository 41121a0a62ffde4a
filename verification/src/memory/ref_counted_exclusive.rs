use super::leptonica_clone::LeptonicaClone;
use super::leptonica_destroy::LeptonicaDestroy;
use super::ref_counted::RefCounted;
use crate::heap::Heap;
use vstd::prelude::*;

verus! {

/// An exclusive owning wrapper: like [`RefCounted`] it holds exactly one
/// reference and gives it back exactly once, but it also guarantees sole
/// ownership of the entity, so it may hand out mutable access.
pub struct RefCountedExclusive<T: LeptonicaDestroy> {
    inner: T,
}

impl<T: LeptonicaDestroy> View for RefCountedExclusive<T> {
    type V = T;

    closed spec fn view(&self) -> T {
        self.inner
    }
}

impl<T: LeptonicaDestroy> RefCountedExclusive<T> {
    /// Wrap an entity one of whose references the caller hands over to the
    /// wrapper, and of which no other alias is in use.  Wrapping a handle
    /// without such a reference leaves the wrapper's `destroy` unprovable or
    /// double-releasing.
    pub fn new(inner: T) -> (r: Self)
        ensures
            r@ == inner,
    {
        RefCountedExclusive { inner }
    }

    /// Read-only access to the wrapped entity.
    pub fn inner(&self) -> (r: &T)
        ensures
            *r == self@,
    {
        &self.inner
    }

    /// Mutable access to the wrapped entity; only the exclusive wrapper
    /// offers this.
    pub fn inner_mut(&mut self) -> (r: &mut T)
        ensures
            *r == old(self)@,
            final(self)@ == *final(r),
    {
        &mut self.inner
    }

    /// Give this wrapper's reference back to the store.
    pub fn destroy(self, heap: &mut Heap)
        requires
            self@.shape_wf(*old(heap)),
            old(heap).wf(),
            old(heap).release_pre(self@.handle()),
        ensures
            final(heap).wf(),
            Heap::release_post(*old(heap), self@.handle(), *final(heap)),
    {
        let RefCountedExclusive { inner: mut inner } = self;
        inner.destroy(heap);
    }
}

impl<T: LeptonicaDestroy + LeptonicaClone> RefCountedExclusive<T> {
    /// Convert to a shared wrapper.
    ///
    /// The entity's handle is cloned once (one new reference, one create
    /// counted) and this wrapper's own reference is released (one release
    /// counted); the returned shared wrapper owns the fresh reference.  The
    /// store's slots — every count and every resource — end exactly as they
    /// began.
    pub fn to_ref_counted(self, heap: &mut Heap) -> (r: RefCounted<T>)
        requires
            self@.shape_wf(*old(heap)),
            old(heap).wf(),
            old(heap).live(self@.handle()),
            old(heap).can_create(),
        ensures
            r@ == self@,
            final(heap).wf(),
            r@.shape_wf(*final(heap)),
            final(heap).live(r@.handle()),
            Heap::same_slots(*old(heap), *final(heap)),
            final(heap).creates() == old(heap).creates() + 1,
            final(heap).releases() == old(heap).releases() + 1,
    {
        let RefCountedExclusive { inner: mut inner } = self;
        let cloned = inner.clone_handle(heap);
        proof {
            inner.shape_preserved(*old(heap), *heap);
        }
        inner.destroy(heap);
        proof {
            inner.shape_preserved(*old(heap), *heap);
        }
        RefCounted::new(cloned)
    }
}

/// Law of the Exclusive→Shared conversion: it leaves every slot of the
/// store as it was, so whatever a handle's resource held before the
/// conversion — a raster's width, height and depth, a rectangle's geometry,
/// a reference count — reads identically after it.
pub proof fn lemma_conversion_preserves_resources(pre: Heap, post: Heap, h: int)
    requires
        Heap::same_slots(pre, post),
    ensures
        post.image_dims(h) == pre.image_dims(h),
        post.rect_geometry(h) == pre.rect_geometry(h),
        post.rc(h) == pre.rc(h),
{
}

} // verus!
