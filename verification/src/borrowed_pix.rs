use crate::heap::Heap;
use crate::memory::{BorrowedFrom, LeptonicaDestroy};
use crate::raster::Raster;
use vstd::prelude::*;

verus! {

/// Read-only access to a raster's dimensions, shared by every value that
/// can view one — the entity itself or a borrowed view of it.
pub trait BorrowedPix {
    /// The handle of the viewed raster.
    spec fn viewed(&self) -> int;

    /// The view designates an image slot of `heap`.
    spec fn view_wf(&self, heap: Heap) -> bool;

    /// Height of the viewed raster.
    fn get_height(&self, heap: &Heap) -> (r: u32)
        requires
            self.view_wf(*heap),
        ensures
            r == heap.image_dims(self.viewed()).height,
    ;

    /// Width of the viewed raster.
    fn get_width(&self, heap: &Heap) -> (r: u32)
        requires
            self.view_wf(*heap),
        ensures
            r == heap.image_dims(self.viewed()).width,
    ;
}

impl BorrowedPix for Raster {
    open spec fn viewed(&self) -> int {
        self.handle()
    }

    open spec fn view_wf(&self, heap: Heap) -> bool {
        self.shape_wf(heap)
    }

    fn get_height(&self, heap: &Heap) -> (r: u32) {
        Raster::get_height(self, heap)
    }

    fn get_width(&self, heap: &Heap) -> (r: u32) {
        Raster::get_width(self, heap)
    }
}

impl<'a> BorrowedPix for BorrowedFrom<'a, Raster> {
    open spec fn viewed(&self) -> int {
        self@.handle()
    }

    open spec fn view_wf(&self, heap: Heap) -> bool {
        self@.shape_wf(heap)
    }

    fn get_height(&self, heap: &Heap) -> (r: u32) {
        Raster::get_height(self.inner(), heap)
    }

    fn get_width(&self, heap: &Heap) -> (r: u32) {
        Raster::get_width(self.inner(), heap)
    }
}

} // verus!
