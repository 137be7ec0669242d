use rustbook::statistics::{mean, median, mode};

#[test]
fn mean_as_fraction() {
    assert_eq!(mean(&vec![1, 2, 3, 4]), (10, 4));
    assert_eq!(mean(&vec![]), (0, 0));
    assert_eq!(mean(&vec![-5, 5, -7]), (-7, 3));
}

#[test]
fn median_as_fraction() {
    assert_eq!(median(&vec![1, 2, 3]), (2, 1));
    assert_eq!(median(&vec![1, 2, 3, 4]), (5, 2));
    assert_eq!(median(&vec![7]), (7, 1));
    assert_eq!(median(&vec![-3, -1]), (-4, 2));
}

#[test]
fn mode_is_the_most_frequent_value() {
    assert_eq!(mode(&vec![1, 2, 2, 3]), 2);
    assert_eq!(mode(&vec![5]), 5);
    assert_eq!(mode(&vec![]), 0);
    let list = vec![
        -5, 0, 1, 1, 2, 2, 3, 3, 3, 4, 5, 6, 7, 7, 7, 7, 8, 8, 9, 9, 10, 11, 11, 46, 1023,
    ];
    assert_eq!(mode(&list), 7);
}

#[test]
fn mode_on_a_tie_returns_one_of_the_most_frequent() {
    let m = mode(&vec![4, 9, 4, 9]);
    assert!(m == 4 || m == 9);
}
