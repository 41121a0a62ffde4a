use crate::heap::{Geometry, Heap, Resource};
use crate::memory::{LeptonicaDestroy, RefCountedExclusive};
use vstd::prelude::*;

verus! {

/// A rectangle entity: a handle to one rectangle resource in the store.
#[derive(Clone, Copy, Debug)]
pub struct Rectangle {
    raw: usize,
}

/// Error answered by [`Rectangle::create_valid`] when the native constructor
/// returns null, which it does exactly for a non-positive width or height.
#[derive(Clone, Copy, Debug, PartialEq, Eq, Structural)]
pub struct BoxCreateValidError();

impl LeptonicaDestroy for Rectangle {
    closed spec fn handle(&self) -> int {
        self.raw as int
    }

    closed spec fn shape_wf(&self, heap: Heap) -> bool {
        heap.is_rect(self.raw as int)
    }

    proof fn shape_preserved(&self, pre: Heap, post: Heap) {
        assert(post.res(self.raw as int) == pre.res(self.raw as int));
    }

    fn destroy(&mut self, heap: &mut Heap) {
        heap.release(self.raw);
    }
}

/// What shape-well-formedness means for a rectangle: its handle designates
/// a rectangle slot.
pub broadcast proof fn lemma_rectangle_shape(r: Rectangle, heap: Heap)
    ensures
        #[trigger] r.shape_wf(heap) <==> heap.is_rect(r.handle()),
{
}

impl Rectangle {
    pub(crate) fn from_handle(raw: usize) -> (r: Self)
        ensures
            r.handle() == raw as int,
    {
        Rectangle { raw }
    }

    pub(crate) fn raw_handle(&self) -> (r: usize)
        ensures
            r as int == self.handle(),
    {
        self.raw
    }

    /// The native checked constructor.  It succeeds exactly when the width
    /// and the height are positive, and fails with a null answer otherwise;
    /// on success the caller exclusively owns a fresh rectangle with the
    /// given geometry.
    pub fn create_valid(heap: &mut Heap, x: i32, y: i32, w: i32, h: i32) -> (r: Result<
        RefCountedExclusive<Rectangle>,
        BoxCreateValidError,
    >)
        requires
            old(heap).wf(),
            old(heap).can_create(),
        ensures
            final(heap).wf(),
            w > 0 && h > 0 ==> {
                &&& r is Ok
                &&& r->Ok_0@.handle() == old(heap).n_slots()
                &&& r->Ok_0@.shape_wf(*final(heap))
                &&& final(heap).live(r->Ok_0@.handle())
                &&& final(heap).rect_geometry(r->Ok_0@.handle()) == (Geometry { x, y, w, h })
                &&& Heap::alloc_frame(*old(heap), *final(heap), r->Ok_0@.handle())
            },
            !(w > 0 && h > 0) ==> {
                &&& r is Err
                &&& r->Err_0 == BoxCreateValidError()
                &&& *final(heap) == *old(heap)
            },
    {
        if w > 0 && h > 0 {
            let g = Geometry { x, y, w, h };
            let idx = heap.allocate(Resource::Rect(g));
            Ok(RefCountedExclusive::new(Rectangle::from_handle(idx)))
        } else {
            Err(BoxCreateValidError())
        }
    }

    /// Read the rectangle's geometry as one structured record.
    pub fn get_geometry(&self, heap: &Heap) -> (g: Geometry)
        requires
            self.shape_wf(*heap),
        ensures
            g == heap.rect_geometry(self.handle()),
    {
        heap.rect_data(self.raw)
    }

    /// Whether two rectangle values designate the same stored rectangle —
    /// the model's counterpart of comparing storage addresses.
    pub fn aliases(&self, other: &Rectangle) -> (b: bool)
        ensures
            b == (self.handle() == other.handle()),
    {
        self.raw == other.raw
    }
}

} // verus!
