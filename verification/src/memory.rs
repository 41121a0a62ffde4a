//! The ownership layer: capability traits for native destroy/clone and the
//! three wrapper kinds (borrowed view, shared handle, exclusive handle).

mod borrowed_from;
mod leptonica_clone;
mod leptonica_destroy;
mod ref_counted;
mod ref_counted_exclusive;

pub use borrowed_from::BorrowedFrom;
pub use leptonica_clone::LeptonicaClone;
pub use leptonica_destroy::LeptonicaDestroy;
pub use ref_counted::RefCounted;
pub use ref_counted_exclusive::RefCountedExclusive;
pub use ref_counted_exclusive::lemma_conversion_preserves_resources;
