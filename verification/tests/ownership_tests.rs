use leptonica_plumbing::memory::BorrowedFrom;
use leptonica_plumbing::{BorrowedPix, Heap, PixReadMemError, Raster, RasterArray};

fn img_bytes(w: u32, h: u32, d: u32) -> Vec<u8> {
    let mut v = Vec::new();
    for field in [w, h, d] {
        v.push((field >> 24) as u8);
        v.push((field >> 16) as u8);
        v.push((field >> 8) as u8);
        v.push(field as u8);
    }
    v
}

#[test]
fn clone_test() {
    let mut heap = Heap::new();
    let pix = Raster::read_mem(&mut heap, &img_bytes(200, 23, 32)).unwrap();
    let pix = pix.to_ref_counted(&mut heap);
    assert_eq!(pix.inner().get_height(&heap), 23);
    pix.destroy(&mut heap);
    assert_eq!(heap.create_count(), heap.release_count());
}

#[test]
fn conversion_preserves_dimensions() {
    // Exclusive → Shared conversion reads identically before and after.
    let mut heap = Heap::new();
    let pix = Raster::read_mem(&mut heap, &img_bytes(640, 480, 8)).unwrap();
    let width_before = pix.inner().get_width(&heap);
    let height_before = pix.inner().get_height(&heap);
    let shared = pix.to_ref_counted(&mut heap);
    assert_eq!(shared.inner().get_width(&heap), width_before);
    assert_eq!(shared.inner().get_height(&heap), height_before);
    shared.destroy(&mut heap);
}

#[test]
fn conversion_balances_counters() {
    // The conversion performs exactly one clone and one release: increments
    // and releases across it stay balanced.
    let mut heap = Heap::new();
    let pix = Raster::read_mem(&mut heap, &img_bytes(2, 2, 1)).unwrap();
    let creates = heap.create_count();
    let releases = heap.release_count();
    let refs = heap.live_references();
    let shared = pix.to_ref_counted(&mut heap);
    assert_eq!(heap.create_count(), creates + 1);
    assert_eq!(heap.release_count(), releases + 1);
    assert_eq!(heap.live_references(), refs);
    shared.destroy(&mut heap);
    assert_eq!(heap.create_count(), heap.release_count());
}

#[test]
fn releases_match_creates_on_every_path() {
    // Normal path.
    let mut heap = Heap::new();
    let pix = Raster::read_mem(&mut heap, &img_bytes(8, 8, 4)).unwrap();
    pix.destroy(&mut heap);
    assert_eq!(heap.create_count(), heap.release_count());
    assert_eq!(heap.live_references(), 0);

    // Early-error path: the failed read performed no create, so an early
    // return leaves the counters balanced too.
    let mut heap = Heap::new();
    let result = Raster::read_mem(&mut heap, &img_bytes(0, 8, 4));
    assert_eq!(result.err(), Some(PixReadMemError::NullPtr));
    assert_eq!(heap.create_count(), heap.release_count());

    // Early-exit path: one of two resources released before the other.
    let mut heap = Heap::new();
    let p1 = Raster::read_mem(&mut heap, &img_bytes(8, 8, 4)).unwrap();
    let p2 = Raster::read_mem(&mut heap, &img_bytes(9, 9, 4)).unwrap();
    p1.destroy(&mut heap);
    assert_eq!(heap.live_references(), 1);
    p2.destroy(&mut heap);
    assert_eq!(heap.create_count(), heap.release_count());
    assert_eq!(heap.live_references(), 0);
}

#[test]
fn borrowed_view_reads_without_counting() {
    let mut heap = Heap::new();
    let pix = Raster::read_mem(&mut heap, &img_bytes(31, 17, 2)).unwrap();
    let creates = heap.create_count();
    {
        let view = BorrowedFrom::new(*pix.inner());
        assert_eq!(view.get_width(&heap), 31);
        assert_eq!(view.get_height(&heap), 17);
        assert_eq!(view.inner().get_depth(&heap), 2);
    }
    // The borrowed view took no reference and released none.
    assert_eq!(heap.create_count(), creates);
    pix.destroy(&mut heap);
    assert_eq!(heap.create_count(), heap.release_count());
}

#[test]
fn borrowed_array_element_shares_the_view_interface() {
    let mut heap = Heap::new();
    let mut pixa = RasterArray::create(&mut heap, 1).unwrap();
    let pix = Raster::read_mem(&mut heap, &img_bytes(44, 11, 16)).unwrap();
    pixa.inner_mut().add_pix_cloned(&mut heap, pix.inner());
    {
        let view = pixa.inner().get_pix_borrowed(&heap, 0).unwrap();
        assert_eq!(view.get_width(&heap), 44);
        assert_eq!(view.get_height(&heap), 11);
    }
    pix.destroy(&mut heap);
    pixa.destroy(&mut heap);
    assert_eq!(heap.create_count(), heap.release_count());
}

#[test]
fn raster_views_share_one_interface() {
    let mut heap = Heap::new();
    let pix = Raster::read_mem(&mut heap, &img_bytes(5, 6, 1)).unwrap();
    let direct: &Raster = pix.inner();
    assert_eq!(BorrowedPix::get_width(direct, &heap), 5);
    assert_eq!(BorrowedPix::get_height(direct, &heap), 6);
    pix.destroy(&mut heap);
}
