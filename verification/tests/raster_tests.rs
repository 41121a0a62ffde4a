use leptonica_plumbing::{Heap, PixReadMemError, Raster, RasterArray, fits_native_length};

/// Bytes of the image container: a 12-byte big-endian header of width,
/// height and depth, followed by an arbitrary payload.
fn img_bytes(w: u32, h: u32, d: u32) -> Vec<u8> {
    let mut v = Vec::new();
    for field in [w, h, d] {
        v.push((field >> 24) as u8);
        v.push((field >> 16) as u8);
        v.push((field >> 8) as u8);
        v.push(field as u8);
    }
    v.push(0xAB);
    v
}

#[test]
fn read_mem_error_test() {
    let mut heap = Heap::new();
    assert_eq!(Raster::read_mem(&mut heap, &[]).err(), Some(PixReadMemError::NullPtr));
}

#[test]
fn read_memory_test() {
    let mut heap = Heap::new();
    let pix = Raster::read_mem(&mut heap, &img_bytes(200, 23, 32)).unwrap();
    assert_eq!(pix.inner().get_height(&heap), 23);
    pix.destroy(&mut heap);
}

#[test]
fn read_memory_test_02() {
    let mut heap = Heap::new();
    let pix = Raster::read_mem(&mut heap, &img_bytes(200, 23, 32)).unwrap();
    assert_eq!(pix.inner().get_depth(&heap), 32);
    pix.destroy(&mut heap);
}

#[test]
fn read_memory_width() {
    let mut heap = Heap::new();
    let pix = Raster::read_mem(&mut heap, &img_bytes(200, 23, 32)).unwrap();
    assert_eq!(pix.inner().get_width(&heap), 200);
    assert_eq!(pix.inner().get_height(&heap), 23);
    pix.destroy(&mut heap);
}

#[test]
fn read_mem_rejects_invalid_buffers() {
    let mut heap = Heap::new();
    // Too short for the header.
    assert_eq!(Raster::read_mem(&mut heap, &[1, 2, 3]).err(), Some(PixReadMemError::NullPtr));
    // Zero width.
    assert_eq!(
        Raster::read_mem(&mut heap, &img_bytes(0, 23, 32)).err(),
        Some(PixReadMemError::NullPtr)
    );
    // Zero height.
    assert_eq!(
        Raster::read_mem(&mut heap, &img_bytes(200, 0, 32)).err(),
        Some(PixReadMemError::NullPtr)
    );
    // A depth the native library does not store.
    assert_eq!(
        Raster::read_mem(&mut heap, &img_bytes(200, 23, 3)).err(),
        Some(PixReadMemError::NullPtr)
    );
    // Failed reads take no references and count no creates.
    assert_eq!(heap.create_count(), 0);
    assert_eq!(heap.live_references(), 0);
}

#[test]
fn native_length_conversion_is_checked() {
    // The native length parameter is 32 bits wide: larger buffer lengths
    // must fail the checked conversion (`ImageSizeConversion`) instead of
    // being truncated.
    assert!(fits_native_length(12));
    assert!(fits_native_length(u32::MAX as usize));
    assert!(!fits_native_length(5_000_000_000usize));
}

#[test]
fn raster_array_copy_and_clone() {
    let mut heap = Heap::new();
    let mut pixa = RasterArray::create(&mut heap, 2).unwrap();
    assert_eq!(pixa.inner().get_count(&heap), 0);
    let p1 = Raster::read_mem(&mut heap, &img_bytes(165, 67, 1)).unwrap();
    let p2 = Raster::read_mem(&mut heap, &img_bytes(165, 67, 1)).unwrap();
    pixa.inner_mut().add_pix_cloned(&mut heap, p1.inner());
    pixa.inner_mut().add_pix_cloned(&mut heap, p2.inner());
    assert_eq!(pixa.inner().get_count(&heap), 2);
    let copied = pixa.inner().get_pix_copied(&mut heap, 0).unwrap();
    assert_eq!(copied.inner().get_width(&heap), 165);
    assert!(!copied.inner().aliases(p1.inner()));
    let cloned = pixa.inner().get_pix_cloned(&mut heap, 0).unwrap();
    assert_eq!(cloned.inner().get_height(&heap), 67);
    assert!(cloned.inner().aliases(p1.inner()));
    assert!(pixa.inner().get_pix_copied(&mut heap, 2).is_none());
    assert!(pixa.inner().get_pix_cloned(&mut heap, 2).is_none());
    copied.destroy(&mut heap);
    cloned.destroy(&mut heap);
    p1.destroy(&mut heap);
    p2.destroy(&mut heap);
    pixa.destroy(&mut heap);
    assert_eq!(heap.create_count(), heap.release_count());
    assert_eq!(heap.live_references(), 0);
}
