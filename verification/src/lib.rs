//! A safe ownership layer for reference-counted image resources.
//!
//! The native image library manages rectangles, rectangle arrays, raster
//! images and raster arrays through manual reference counting: `create` and
//! `clone` calls increment a count, `destroy` calls decrement it, and storage
//! is freed when the count reaches zero.  This crate captures that discipline
//! in a form a verifier can check: the counted store itself is the [`Heap`]
//! value, every entity is a handle into it, and the ownership wrappers
//! ([`memory::RefCountedExclusive`], [`memory::RefCounted`],
//! [`memory::BorrowedFrom`]) carry contracts proving that each owned
//! reference is released exactly once and that shared aliases are never
//! mutated.
//!
//! The store is instrumented: it counts every create/clone and every
//! release, and [`lemma_counts_balanced`] proves from its invariant that the
//! two counters agree as soon as no live reference remains, on every control
//! path.  The I/O layer around the crate decodes real images through the
//! native library and hands the decoded dimensions into the store as plain
//! values, so that all ownership handling runs through the checked API.

mod borrowed_pix;
mod heap;
pub mod memory;
mod raster;
mod raster_array;
mod rectangle;
mod rectangle_array;

pub use borrowed_pix::BorrowedPix;
pub use raster::PixReadError;
pub use raster::PixReadMemError;
pub use raster::Raster;
pub use raster::be32_at;
pub use raster::depth_ok;
pub use raster::fits_native_length;
pub use raster::lemma_raster_shape;
pub use raster::parsed_dims;
pub use raster::parses_as_image;
pub use raster_array::RasterArray;
pub use raster_array::lemma_raster_array_shape;
pub use rectangle::BoxCreateValidError;
pub use rectangle::Rectangle;
pub use rectangle::lemma_rectangle_shape;
pub use rectangle_array::RectangleArray;
pub use rectangle_array::lemma_rectangle_array_shape;

pub use heap::Geometry;
pub use heap::Heap;
pub use heap::ImageDims;
pub use heap::Resource;
pub use heap::count_in;
pub use heap::lemma_count_in_push;
pub use heap::lemma_counts_balanced;
