use ascii_arcade::angles::{map_angle, ORIENTATION};
use ascii_arcade::primitives::{Circle, Square};

#[test]
fn test_correct_rectangle_overlap() {
    // all other rectangles are compared against this one
    let rect_ref = Square::new((0, 0), 1000);

    // rectangles to compare against the reference one
    let rect_right = Square::new((1000, 0), 1000);
    let rect_top_right = Square::new((1000, -1000), 1000);
    let rect_top = Square::new((0, -1000), 1000);
    let rect_top_left = Square::new((-1000, -1000), 1000);
    let rect_left = Square::new((-1000, 0), 1000);
    let rect_btm_left = Square::new((-1000, 1000), 1000);
    let rect_btm = Square::new((0, 1000), 1000);
    let rect_btm_right = Square::new((1000, 1000), 1000);
    let rect_no_overlap = Square::new((10_000, 10_000), 1000);

    // is the overlap of each rectangle with the reference one as expected?
    assert!(rect_ref.overlap(&rect_right).unwrap() == (1000, 2000));
    assert!(rect_ref.overlap(&rect_top_right).unwrap() == (1000, 1000));
    assert!(rect_ref.overlap(&rect_top).unwrap() == (2000, 1000));
    assert!(rect_ref.overlap(&rect_top_left).unwrap() == (1000, 1000));
    assert!(rect_ref.overlap(&rect_left).unwrap() == (1000, 2000));
    assert!(rect_ref.overlap(&rect_btm_left).unwrap() == (1000, 1000));
    assert!(rect_ref.overlap(&rect_btm).unwrap() == (2000, 1000));
    assert!(rect_ref.overlap(&rect_btm_right).unwrap() == (1000, 1000));
    assert!(rect_ref.overlap(&rect_no_overlap).is_none());
}

#[test]
fn touching_squares_do_not_overlap() {
    let a = Square::new((0, 0), 500);
    let b = Square::new((1000, 0), 500);
    assert!(a.overlap(&b).is_none());
    assert!(!a.intersects(&b));
    assert!(a.intersects(&Square::new((999, 999), 500)));
}

#[test]
fn circle_tests() {
    let a = Circle::new((0, 0), 1000);
    let b = Circle::new((1000, 0), 1000);
    assert!(a.intersects(&b));
    assert_eq!(a.overlap_length(&b), 1000);
    // box-style test: diagonal centroids within the radii on each axis intersect
    let c = Circle::new((2000, 2000), 1000);
    assert!(a.intersects(&c));
    assert_eq!(a.overlap_length(&c), 2000 - 2828);
    let d = Circle::new((3000, 0), 1000);
    assert!(!a.intersects(&d));
    assert_eq!(a.overlap_length(&d), 0);
}

#[test]
fn octant_boundaries() {
    let cases = [
        (0, ORIENTATION::East),
        (2249, ORIENTATION::East),
        (2250, ORIENTATION::NorthEast),
        (6749, ORIENTATION::NorthEast),
        (6750, ORIENTATION::North),
        (11249, ORIENTATION::North),
        (11250, ORIENTATION::NorthWest),
        (15749, ORIENTATION::NorthWest),
        (15750, ORIENTATION::West),
        (20249, ORIENTATION::West),
        (20250, ORIENTATION::SouthWest),
        (24749, ORIENTATION::SouthWest),
        (24750, ORIENTATION::South),
        (29249, ORIENTATION::South),
        (29250, ORIENTATION::SouthEast),
        (33749, ORIENTATION::SouthEast),
        (33750, ORIENTATION::East),
        (35999, ORIENTATION::East),
        (36000, ORIENTATION::East),
        (-1, ORIENTATION::East),
        (-2251, ORIENTATION::SouthEast),
        (38250, ORIENTATION::NorthEast),
    ];
    for (deg, expected) in cases {
        assert_eq!(ORIENTATION::from_angle(deg), Some(expected), "angle {}", deg);
    }
}

#[test]
fn map_angle_to_segments() {
    assert_eq!(map_angle(35_000, 8), 0);
    assert_eq!(map_angle(1000, 8), 0);
    assert_eq!(map_angle(4000, 8), 4500);
    assert_eq!(map_angle(5000, 8), 4500);
    assert_eq!(map_angle(8000, 8), 9000);
    assert_eq!(map_angle(10_000, 8), 9000);
    assert_eq!(map_angle(12_000, 8), 13_500);
    assert_eq!(map_angle(14_000, 8), 13_500);
    assert_eq!(map_angle(17_000, 8), 18_000);
    assert_eq!(map_angle(19_000, 8), 18_000);
    assert_eq!(map_angle(22_000, 8), 22_500);
    assert_eq!(map_angle(23_000, 8), 22_500);
    assert_eq!(map_angle(26_000, 8), 27_000);
    assert_eq!(map_angle(28_000, 8), 27_000);
    assert_eq!(map_angle(31_000, 8), 31_500);
    assert_eq!(map_angle(32_000, 8), 31_500);
    assert_eq!(map_angle(4600, 4), 9000);
    assert_eq!(map_angle(1000, 3), 0);
    assert_eq!(map_angle(7000, 3), 12_000);
    assert_eq!(map_angle(1234, 0), 0);
}

#[test]
fn overlap_size_of_squares() {
    let a = Square::new((0, 0), 1000);
    assert_eq!(a.overlap_size(&Square::new((1500, -500), 1000)), (500, 1500));
    assert_eq!(a.overlap_size(&Square::new((2000, 0), 1000)), (0, 0));
}
