use core::marker::PhantomData;
use vstd::prelude::*;

verus! {

/// A non-owning view of an entity, valid for the lifetime of the parent
/// that produced it.
///
/// The view holds no reference of its own: it never releases, and it must
/// not outlive the parent's reference or be used across a mutation of the
/// viewed storage.
pub struct BorrowedFrom<'a, T> {
    inner: T,
    phantom: PhantomData<&'a T>,
}

impl<'a, T> View for BorrowedFrom<'a, T> {
    type V = T;

    closed spec fn view(&self) -> T {
        self.inner
    }
}

impl<'a, T> BorrowedFrom<'a, T> {
    /// Wrap a borrowed entity.  The release obligation stays with the
    /// caller; this wrapper only reads.
    pub fn new(inner: T) -> (r: Self)
        ensures
            r@ == inner,
    {
        BorrowedFrom { inner, phantom: PhantomData }
    }

    /// Read-only access to the viewed entity.
    pub fn inner(&self) -> (r: &T)
        ensures
            *r == self@,
    {
        &self.inner
    }
}

} // verus!
