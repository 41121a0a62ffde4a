use leptonica_plumbing::{Geometry, Heap, Rectangle};

#[test]
fn create_valid_test() {
    let mut heap = Heap::new();
    let rect = Rectangle::create_valid(&mut heap, 1, 2, 3, 4).unwrap();
    let g = rect.inner().get_geometry(&heap);
    assert_eq!(g.w, 3);
    rect.destroy(&mut heap);
}

#[test]
fn create_invalid_test() {
    let mut heap = Heap::new();
    assert!(Rectangle::create_valid(&mut heap, 1, 2, 3, -4).is_err());
}

#[test]
fn create_valid_geometry_round_trip() {
    // Positive width and height always succeed, whatever the position.
    let mut heap = Heap::new();
    let cases: [(i32, i32, i32, i32); 4] =
        [(0, 0, 1, 1), (-5, -7, 10, 20), (100, 200, 300, 400), (i32::MIN, i32::MAX, i32::MAX, 1)];
    for (x, y, w, h) in cases {
        let rect = Rectangle::create_valid(&mut heap, x, y, w, h).unwrap();
        let g = rect.inner().get_geometry(&heap);
        assert_eq!(g, Geometry { x, y, w, h });
        rect.destroy(&mut heap);
    }
    assert_eq!(heap.create_count(), heap.release_count());
}

#[test]
fn create_invalid_rejects_non_positive_sides() {
    let mut heap = Heap::new();
    assert!(Rectangle::create_valid(&mut heap, 0, 0, 0, 5).is_err());
    assert!(Rectangle::create_valid(&mut heap, 0, 0, 5, 0).is_err());
    assert!(Rectangle::create_valid(&mut heap, 0, 0, -1, -1).is_err());
    // A failed create takes no reference and counts no create.
    assert_eq!(heap.create_count(), 0);
    assert_eq!(heap.release_count(), 0);
    assert_eq!(heap.live_references(), 0);
}
