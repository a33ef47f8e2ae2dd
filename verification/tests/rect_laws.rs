//! The rectangle algebra on concrete values.
use zosimos::rect::Rectangle;

#[test]
fn rectangles() {
    let small = Rectangle::with_width_height(2, 2);
    let large = Rectangle::with_width_height(4, 4);

    assert_eq!(large, large.join(small));
    assert_eq!(small, large.meet(small));
    assert!(large.contains(small));
    assert!(!small.contains(large));
}

#[test]
fn meet_laws_on_values() {
    let a = Rectangle { x: 1, y: 2, max_x: 9, max_y: 8 };
    let b = Rectangle { x: 4, y: 0, max_x: 12, max_y: 6 };
    let c = Rectangle { x: 0, y: 3, max_x: 7, max_y: 11 };

    assert_eq!(a.meet(b), b.meet(a));
    assert_eq!(a.meet(b).meet(c), a.meet(b.meet(c)));
    assert_eq!(a.meet(a), a);
    assert!(a.contains(a.meet(b)));
    assert!(a.contains(a.meet(c)));
}

#[test]
fn contains_meet_needs_side_condition() {
    // Disjoint rectangles overlap in an empty rectangle anchored past the
    // first one, which the first does not contain.
    let a = Rectangle { x: 0, y: 0, max_x: 2, max_y: 2 };
    let b = Rectangle { x: 5, y: 5, max_x: 6, max_y: 6 };
    let m = a.meet(b);
    assert_eq!(m, Rectangle { x: 5, y: 5, max_x: 2, max_y: 2 });
    assert!(!a.contains(m));
}

#[test]
fn inset_zero_is_normalize() {
    let a = Rectangle { x: 3, y: 4, max_x: 9, max_y: 11 };
    assert_eq!(a.inset(0), a.normalize());

    // An unordered rectangle is the input on which the law fails: inset
    // keeps it while normalize collapses it.
    let unordered = Rectangle { x: 2, y: 2, max_x: 0, max_y: 0 };
    assert_eq!(unordered.inset(0), unordered);
    assert_eq!(unordered.normalize(), Rectangle { x: 2, y: 2, max_x: 2, max_y: 2 });
}

#[test]
fn width_height_saturate() {
    let unordered = Rectangle { x: 7, y: 9, max_x: 3, max_y: 2 };
    assert_eq!(unordered.width(), 0);
    assert_eq!(unordered.height(), 0);
    let inset = Rectangle { x: 0, y: 0, max_x: 4, max_y: 4 }.inset(10);
    assert_eq!(inset.width(), 0);
    assert_eq!(inset.max_x, 0);
}
