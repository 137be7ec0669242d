use rustbook::rectangle::{area, Rectangle};

#[test]
fn rectangle_area_and_holding() {
    let rect1 = Rectangle { width: 30, height: 50 };
    let rect2 = Rectangle { width: 10, height: 40 };
    let rect3 = Rectangle { width: 60, height: 45 };
    assert_eq!(rect1.area(), 1500);
    assert_eq!(area(&rect1), 1500);
    assert!(rect1.can_hold(&rect2));
    assert!(!rect1.can_hold(&rect3));
    assert!(!rect1.can_hold(&rect1));
}

#[test]
fn square_has_equal_sides() {
    let s = Rectangle::square(100);
    assert_eq!(s.width, 100);
    assert_eq!(s.height, 100);
    assert_eq!(s.area(), 10000);
}

#[test]
fn holding_is_transitive_and_shrinks_area() {
    let a = Rectangle { width: 10, height: 10 };
    let b = Rectangle { width: 5, height: 8 };
    let c = Rectangle { width: 1, height: 2 };
    assert!(a.can_hold(&b) && b.can_hold(&c) && a.can_hold(&c));
    assert!(b.area() < a.area());
    // equal widths do not fit
    assert!(!a.can_hold(&Rectangle { width: 10, height: 1 }));
}
