use rustbook::adder::{add_two, internal_adder};

#[test]
fn internal() {
    assert_eq!(4, internal_adder(2, 2))
}

#[test]
fn exploration() {
    let result = 2 + 2;
    assert_eq!(result, 4);
}

#[test]
#[should_panic]
fn another() {
    panic!()
}

#[test]
fn lib_it_adds_two() {
    assert_eq!(4, add_two(2));
}

#[test]
fn integration_test_it_adds_two() {
    assert_eq!(4, rustbook::adder::add_two(2));
}

#[test]
fn add_two_handles_negative_and_edge_values() {
    assert_eq!(add_two(-2), 0);
    assert_eq!(add_two(-7), -5);
    assert_eq!(add_two(i32::MAX - 2), i32::MAX);
    assert_eq!(internal_adder(i32::MIN, 0), i32::MIN);
    assert_eq!(internal_adder(-3, 10), 7);
}
