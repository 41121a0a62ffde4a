use crate::heap::{Heap, Resource};
use crate::memory::{BorrowedFrom, LeptonicaDestroy, RefCounted, RefCountedExclusive};
use crate::rectangle::Rectangle;
use vstd::prelude::*;

verus! {

broadcast use crate::rectangle::lemma_rectangle_shape;

/// An ordered array of rectangle handles.
///
/// The array owns one reference to each stored rectangle; releasing the
/// array's last reference releases each stored handle once.
#[derive(Clone, Copy, Debug)]
pub struct RectangleArray {
    raw: usize,
}

impl LeptonicaDestroy for RectangleArray {
    closed spec fn handle(&self) -> int {
        self.raw as int
    }

    closed spec fn shape_wf(&self, heap: Heap) -> bool {
        heap.is_rect_list(self.raw as int)
    }

    proof fn shape_preserved(&self, pre: Heap, post: Heap) {
        assert(post.res(self.raw as int) == pre.res(self.raw as int));
    }

    fn destroy(&mut self, heap: &mut Heap) {
        heap.release(self.raw);
    }
}

/// What shape-well-formedness means for a rectangle array: its handle
/// designates a rectangle-list slot.
pub broadcast proof fn lemma_rectangle_array_shape(a: RectangleArray, heap: Heap)
    ensures
        #[trigger] a.shape_wf(heap) <==> heap.is_rect_list(a.handle()),
{
}

impl RectangleArray {
    /// The native array constructor; `n` is only a capacity hint.  The
    /// returned array is exclusively owned and holds no rectangles yet.
    pub fn create(heap: &mut Heap, n: i32) -> (r: Option<RefCountedExclusive<RectangleArray>>)
        requires
            old(heap).wf(),
            old(heap).can_create(),
        ensures
            final(heap).wf(),
            r is Some,
            r->Some_0@.handle() == old(heap).n_slots(),
            r->Some_0@.shape_wf(*final(heap)),
            final(heap).live(r->Some_0@.handle()),
            final(heap).list_len(r->Some_0@.handle()) == 0,
            Heap::alloc_frame(*old(heap), *final(heap), r->Some_0@.handle()),
    {
        let items: Vec<usize> = if n > 0 {
            Vec::with_capacity(n as usize)
        } else {
            Vec::new()
        };
        let idx = heap.allocate(Resource::RectList(items));
        Some(RefCountedExclusive::new(RectangleArray { raw: idx }))
    }

    /// Number of rectangles the array holds.
    pub fn get_count(&self, heap: &Heap) -> (n: i32)
        requires
            heap.wf(),
            self.shape_wf(*heap),
        ensures
            n == heap.list_len(self.handle()),
    {
        heap.list_length(self.raw) as i32
    }

    /// Append a rectangle in clone mode: the array stores the same handle
    /// and the store takes one new reference on it.
    pub fn add_box_cloned(&mut self, heap: &mut Heap, b: &Rectangle)
        requires
            old(heap).wf(),
            old(self).shape_wf(*old(heap)),
            b.shape_wf(*old(heap)),
            old(heap).live(b.handle()),
            old(heap).can_create(),
            old(heap).list_len(old(self).handle()) < i32::MAX,
        ensures
            *final(self) == *old(self),
            final(heap).wf(),
            Heap::push_post(*old(heap), old(self).handle(), b.handle() as usize, *final(heap)),
    {
        let e = b.raw_handle();
        heap.list_push(self.raw, e);
    }

    /// Copy-mode retrieval: a brand-new rectangle with the same geometry as
    /// the one stored at `index`, exclusively owned.  Empty for every index
    /// outside `[0, count)`; such an index never reaches the store, which
    /// stays untouched.
    pub fn get_box_copied(&self, heap: &mut Heap, index: i32) -> (r: Option<
        RefCountedExclusive<Rectangle>,
    >)
        requires
            old(heap).wf(),
            self.shape_wf(*old(heap)),
            old(heap).can_create(),
        ensures
            final(heap).wf(),
            !(0 <= index < old(heap).list_len(self.handle())) ==> r is None && *final(heap)
                == *old(heap),
            0 <= index < old(heap).list_len(self.handle()) ==> {
                let e = old(heap).items_of(self.handle())[index as int] as int;
                &&& r is Some
                &&& r->Some_0@.handle() == old(heap).n_slots()
                &&& r->Some_0@.handle() != e
                &&& r->Some_0@.shape_wf(*final(heap))
                &&& final(heap).live(r->Some_0@.handle())
                &&& final(heap).rect_geometry(r->Some_0@.handle()) == old(heap).rect_geometry(e)
                &&& Heap::alloc_frame(*old(heap), *final(heap), r->Some_0@.handle())
            },
    {
        if index < 0 {
            return None;
        }
        let i = index as usize;
        if i >= heap.list_length(self.raw) {
            return None;
        }
        let e = heap.list_item(self.raw, i);
        let g = heap.rect_data(e);
        let idx = heap.allocate(Resource::Rect(g));
        Some(RefCountedExclusive::new(Rectangle::from_handle(idx)))
    }

    /// Clone-mode retrieval: a shared wrapper aliasing the rectangle stored
    /// at `index`, whose reference count the store increments.  Empty for
    /// every index outside `[0, count)`; such an index never reaches the
    /// store, which stays untouched.
    pub fn get_box_cloned(&self, heap: &mut Heap, index: i32) -> (r: Option<RefCounted<Rectangle>>)
        requires
            old(heap).wf(),
            self.shape_wf(*old(heap)),
            old(heap).can_create(),
        ensures
            final(heap).wf(),
            !(0 <= index < old(heap).list_len(self.handle())) ==> r is None && *final(heap)
                == *old(heap),
            0 <= index < old(heap).list_len(self.handle()) ==> {
                let e = old(heap).items_of(self.handle())[index as int] as int;
                &&& r is Some
                &&& r->Some_0@.handle() == e
                &&& r->Some_0@.shape_wf(*final(heap))
                &&& final(heap).live(e)
                &&& Heap::incref_post(*old(heap), e, *final(heap))
            },
    {
        if index < 0 {
            return None;
        }
        let i = index as usize;
        if i >= heap.list_length(self.raw) {
            return None;
        }
        let e = heap.list_item(self.raw, i);
        heap.incref(e);
        Some(RefCounted::new(Rectangle::from_handle(e)))
    }

    /// Borrowed retrieval: view the rectangle stored at `index` without
    /// taking any reference.  The view is bound to the array's borrow and
    /// must not outlive it.  Empty for every index outside `[0, count)`;
    /// the store is never touched.
    pub fn get_box_borrowed<'a>(&'a self, heap: &Heap, index: i32) -> (r: Option<
        BorrowedFrom<'a, Rectangle>,
    >)
        requires
            heap.wf(),
            self.shape_wf(*heap),
        ensures
            (r is Some) == (0 <= index < heap.list_len(self.handle())),
            0 <= index < heap.list_len(self.handle()) ==> {
                &&& r->Some_0@.handle() == heap.items_of(self.handle())[index as int] as int
                &&& r->Some_0@.shape_wf(*heap)
            },
    {
        if index < 0 {
            return None;
        }
        let i = index as usize;
        if i >= heap.list_length(self.raw) {
            return None;
        }
        let e = heap.list_item(self.raw, i);
        Some(BorrowedFrom::new(Rectangle::from_handle(e)))
    }
}

} // verus!
