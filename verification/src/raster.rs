use crate::heap::{Heap, ImageDims, Resource};
use crate::memory::{LeptonicaClone, LeptonicaDestroy, RefCountedExclusive};
use vstd::prelude::*;

verus! {

/// A raster image entity: a handle to one image resource in the store.
#[derive(Clone, Copy, Debug)]
pub struct Raster {
    raw: usize,
}

/// Error answered by [`Raster::read_mem`].
#[derive(Clone, Copy, Debug, PartialEq, Eq, Structural)]
pub enum PixReadMemError {
    /// The native reader answered null: the buffer does not hold an image.
    NullPtr,
    /// The buffer's length cannot be represented in the native 32-bit
    /// length parameter; the read fails explicitly rather than truncate.
    ImageSizeConversion,
}

/// Error for path-based reads: the native reader answered null because the
/// file could not be opened or decoded.  Path-based reading itself is file
/// I/O and lives with the I/O layer around this crate, which maps its
/// failures to this type.
#[derive(Clone, Copy, Debug, PartialEq, Eq, Structural)]
pub struct PixReadError();

impl LeptonicaDestroy for Raster {
    closed spec fn handle(&self) -> int {
        self.raw as int
    }

    closed spec fn shape_wf(&self, heap: Heap) -> bool {
        heap.is_image(self.raw as int)
    }

    proof fn shape_preserved(&self, pre: Heap, post: Heap) {
        assert(post.res(self.raw as int) == pre.res(self.raw as int));
    }

    fn destroy(&mut self, heap: &mut Heap) {
        heap.release(self.raw);
    }
}

impl LeptonicaClone for Raster {
    fn clone_handle(&mut self, heap: &mut Heap) -> (r: Self) {
        heap.incref(self.raw);
        Raster { raw: self.raw }
    }
}

/// What shape-well-formedness means for a raster: its handle designates an
/// image slot.
pub broadcast proof fn lemma_raster_shape(r: Raster, heap: Heap)
    ensures
        #[trigger] r.shape_wf(heap) <==> heap.is_image(r.handle()),
{
}

/// The big-endian 32-bit value at offset `off` of `data`.
pub open spec fn be32_at(data: Seq<u8>, off: int) -> int {
    data[off] * 0x100_0000 + data[off + 1] * 0x1_0000 + data[off + 2] * 0x100 + data[off + 3]
}

/// The pixel depths the native library stores.
pub open spec fn depth_ok(d: int) -> bool {
    d == 1 || d == 2 || d == 4 || d == 8 || d == 16 || d == 32
}

/// Whether a buffer parses as an image container: a 12-byte header of three
/// big-endian 32-bit fields — width, height, depth — with positive width
/// and height and a native pixel depth; any pixel payload may follow.
pub open spec fn parses_as_image(data: Seq<u8>) -> bool {
    &&& data.len() >= 12
    &&& be32_at(data, 0) >= 1
    &&& be32_at(data, 4) >= 1
    &&& depth_ok(be32_at(data, 8))
}

/// The dimensions a parsing buffer declares.
pub open spec fn parsed_dims(data: Seq<u8>) -> ImageDims {
    ImageDims {
        width: be32_at(data, 0) as u32,
        height: be32_at(data, 4) as u32,
        depth: be32_at(data, 8) as u32,
    }
}

fn be32(data: &[u8], off: usize) -> (r: u32)
    requires
        off + 4 <= data@.len(),
    ensures
        r == be32_at(data@, off as int),
{
    (data[off] as u32) * 0x100_0000 + (data[off + 1] as u32) * 0x1_0000 + (data[off + 2] as u32)
        * 0x100 + (data[off + 3] as u32)
}

/// The checked width conversion every native length argument goes through:
/// whether a buffer length fits the native 32-bit length parameter.
pub fn fits_native_length(len: usize) -> (b: bool)
    ensures
        b == (len <= u32::MAX),
{
    len <= u32::MAX as usize
}

fn parse_image(data: &[u8]) -> (r: Option<ImageDims>)
    ensures
        r is Some <==> parses_as_image(data@),
        r is Some ==> r->Some_0 == parsed_dims(data@),
{
    if data.len() < 12 {
        return None;
    }
    let w = be32(data, 0);
    let h = be32(data, 4);
    let d = be32(data, 8);
    if w >= 1 && h >= 1 && (d == 1 || d == 2 || d == 4 || d == 8 || d == 16 || d == 32) {
        Some(ImageDims { width: w, height: h, depth: d })
    } else {
        None
    }
}

impl Raster {
    pub(crate) fn from_handle(raw: usize) -> (r: Self)
        ensures
            r.handle() == raw as int,
    {
        Raster { raw }
    }

    pub(crate) fn raw_handle(&self) -> (r: usize)
        ensures
            r as int == self.handle(),
    {
        self.raw
    }

    /// Read an image from an in-memory buffer.
    ///
    /// Fails with `ImageSizeConversion` exactly when the buffer's length
    /// does not fit the native 32-bit length parameter, and with `NullPtr`
    /// exactly when the native reader answers null, which it does for any
    /// buffer that does not parse as an image; on success the caller
    /// exclusively owns a fresh raster with the parsed dimensions.
    pub fn read_mem(heap: &mut Heap, data: &[u8]) -> (r: Result<
        RefCountedExclusive<Raster>,
        PixReadMemError,
    >)
        requires
            old(heap).wf(),
            old(heap).can_create(),
        ensures
            final(heap).wf(),
            data@.len() > u32::MAX ==> {
                &&& r is Err
                &&& r->Err_0 == PixReadMemError::ImageSizeConversion
                &&& *final(heap) == *old(heap)
            },
            data@.len() <= u32::MAX && !parses_as_image(data@) ==> {
                &&& r is Err
                &&& r->Err_0 == PixReadMemError::NullPtr
                &&& *final(heap) == *old(heap)
            },
            data@.len() <= u32::MAX && parses_as_image(data@) ==> {
                &&& r is Ok
                &&& r->Ok_0@.handle() == old(heap).n_slots()
                &&& r->Ok_0@.shape_wf(*final(heap))
                &&& final(heap).live(r->Ok_0@.handle())
                &&& final(heap).image_dims(r->Ok_0@.handle()) == parsed_dims(data@)
                &&& Heap::alloc_frame(*old(heap), *final(heap), r->Ok_0@.handle())
            },
    {
        if !fits_native_length(data.len()) {
            return Err(PixReadMemError::ImageSizeConversion);
        }
        match parse_image(data) {
            None => Err(PixReadMemError::NullPtr),
            Some(d) => {
                let idx = heap.allocate(Resource::Image(d));
                Ok(RefCountedExclusive::new(Raster::from_handle(idx)))
            },
        }
    }

    /// Width of the image.
    pub fn get_width(&self, heap: &Heap) -> (r: u32)
        requires
            self.shape_wf(*heap),
        ensures
            r == heap.image_dims(self.handle()).width,
    {
        heap.image_data(self.raw).width
    }

    /// Height of the image.
    pub fn get_height(&self, heap: &Heap) -> (r: u32)
        requires
            self.shape_wf(*heap),
        ensures
            r == heap.image_dims(self.handle()).height,
    {
        heap.image_data(self.raw).height
    }

    /// Pixel depth of the image, in bits.
    pub fn get_depth(&self, heap: &Heap) -> (r: u32)
        requires
            self.shape_wf(*heap),
        ensures
            r == heap.image_dims(self.handle()).depth,
    {
        heap.image_data(self.raw).depth
    }

    /// Whether two raster values designate the same stored image — the
    /// model's counterpart of comparing storage addresses.
    pub fn aliases(&self, other: &Raster) -> (b: bool)
        ensures
            b == (self.handle() == other.handle()),
    {
        self.raw == other.raw
    }
}

} // verus!
