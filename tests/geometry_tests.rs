use rust_tower_defense::geometry::{BoundingBox, Point, Polygon};

#[test]
fn point_tests() {
    let p = Point(0, 0);
    let p2 = Point(2, 0);

    assert!(p.left_of(p2));
    assert!(!p.right_of(p2));
    assert!(!p2.left_of(p));
    assert!(p2.right_of(p));

    let p3 = Point(0, 2);

    assert!(p3.above(p));
    assert!(p.below(p3));
}

#[test]
fn bbox_point_inside_contains() {
    let p = Point::new(0, 0);
    let p2 = Point::new(2, 0);
    let p3 = Point::new(2, 2);

    let bb1 = BoundingBox::new(p, p3);

    // point on the edge is not considered inside
    assert!(!p2.inside(bb1));
    assert!(!bb1.contains(p2));

    let p4 = Point::new(1, 1);

    assert!(p4.inside(bb1));
    assert!(bb1.contains(p4));

    let p5 = Point::new(50, 50);

    assert!(!bb1.contains(p5));
    assert!(!p5.inside(bb1));
}

#[test]
fn point_accessors() {
    let p = Point::new(7, 9);
    assert_eq!(*p.x(), 7);
    assert_eq!(*p.y(), 9);
    assert!(!p.above(p));
    assert!(!p.below(p));
}

#[test]
fn bbox_corners_and_area() {
    let bb = BoundingBox::new(Point::new(2, 3), Point::new(12, 8));
    assert_eq!(bb.lower_left(), Point::new(2, 3));
    assert_eq!(bb.upper_right(), Point::new(12, 8));
    assert_eq!(bb.area(), 50);
    let map = BoundingBox::new(Point::new(0, 0), Point::new(100, 100));
    assert_eq!(map.area(), 10000);
}
