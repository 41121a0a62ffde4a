use leptonica_plumbing::{Geometry, Heap, Rectangle, RectangleArray};

#[test]
fn get_test() {
    let mut heap = Heap::new();
    let mut boxa = RectangleArray::create(&mut heap, 4).unwrap();
    assert_eq!(boxa.inner().get_count(&heap), 0);
    let box_1 = Rectangle::create_valid(&mut heap, 1, 2, 3, 4).unwrap();
    let box_2 = Rectangle::create_valid(&mut heap, 5, 6, 7, 8).unwrap();
    boxa.inner_mut().add_box_cloned(&mut heap, box_1.inner());
    boxa.inner_mut().add_box_cloned(&mut heap, box_2.inner());
    assert_eq!(boxa.inner().get_count(&heap), 2);

    let box_1_cloned = boxa.inner().get_box_cloned(&mut heap, 0).unwrap();
    let box_2_copied = boxa.inner().get_box_copied(&mut heap, 1).unwrap();

    let g = box_1_cloned.inner().get_geometry(&heap);
    assert_eq!((g.x, g.y, g.w, g.h), (1, 2, 3, 4));
    // Because the clone-mode retrieval reuses and reference-counts the same
    // stored rectangle.
    assert!(box_1_cloned.inner().aliases(box_1.inner()));

    let g = box_2_copied.inner().get_geometry(&heap);
    assert_eq!((g.x, g.y, g.w, g.h), (5, 6, 7, 8));
    // Because the copy-mode retrieval creates a new instance.
    assert!(!box_2_copied.inner().aliases(box_2.inner()));

    box_1_cloned.destroy(&mut heap);
    box_2_copied.destroy(&mut heap);
    box_1.destroy(&mut heap);
    box_2.destroy(&mut heap);
    boxa.destroy(&mut heap);
    assert_eq!(heap.create_count(), heap.release_count());
    assert_eq!(heap.live_references(), 0);
}

#[test]
fn array_starts_empty() {
    let mut heap = Heap::new();
    let boxa = RectangleArray::create(&mut heap, 4).unwrap();
    assert_eq!(boxa.inner().get_count(&heap), 0);
    boxa.destroy(&mut heap);
}

#[test]
fn out_of_range_indices_are_empty() {
    let mut heap = Heap::new();
    let mut boxa = RectangleArray::create(&mut heap, 2).unwrap();
    let rect = Rectangle::create_valid(&mut heap, 1, 2, 3, 4).unwrap();
    boxa.inner_mut().add_box_cloned(&mut heap, rect.inner());
    let creates_before = heap.create_count();
    for index in [1, 2, 100, i32::MAX, -1, i32::MIN] {
        assert!(boxa.inner().get_box_copied(&mut heap, index).is_none());
        assert!(boxa.inner().get_box_cloned(&mut heap, index).is_none());
    }
    // An out-of-range index never reaches the store.
    assert_eq!(heap.create_count(), creates_before);
    rect.destroy(&mut heap);
    boxa.destroy(&mut heap);
    assert_eq!(heap.create_count(), heap.release_count());
}

#[test]
fn borrowed_element_view() {
    let mut heap = Heap::new();
    let mut boxa = RectangleArray::create(&mut heap, 1).unwrap();
    let rect = Rectangle::create_valid(&mut heap, 4, 3, 2, 1).unwrap();
    boxa.inner_mut().add_box_cloned(&mut heap, rect.inner());
    let creates = heap.create_count();
    {
        let view = boxa.inner().get_box_borrowed(&heap, 0).unwrap();
        assert!(view.inner().aliases(rect.inner()));
        let g = view.inner().get_geometry(&heap);
        assert_eq!((g.x, g.y, g.w, g.h), (4, 3, 2, 1));
        assert!(boxa.inner().get_box_borrowed(&heap, 1).is_none());
    }
    // The view took no reference and released none.
    assert_eq!(heap.create_count(), creates);
    rect.destroy(&mut heap);
    boxa.destroy(&mut heap);
    assert_eq!(heap.create_count(), heap.release_count());
}

#[test]
fn copied_rectangle_outlives_the_array() {
    // A copy has fresh storage with its own count, decoupled from the array.
    let mut heap = Heap::new();
    let mut boxa = RectangleArray::create(&mut heap, 1).unwrap();
    let rect = Rectangle::create_valid(&mut heap, 9, 9, 2, 2).unwrap();
    boxa.inner_mut().add_box_cloned(&mut heap, rect.inner());
    let copied = boxa.inner().get_box_copied(&mut heap, 0).unwrap();
    rect.destroy(&mut heap);
    boxa.destroy(&mut heap);
    let g = copied.inner().get_geometry(&heap);
    assert_eq!(g, Geometry { x: 9, y: 9, w: 2, h: 2 });
    copied.destroy(&mut heap);
    assert_eq!(heap.create_count(), heap.release_count());
    assert_eq!(heap.live_references(), 0);
}
