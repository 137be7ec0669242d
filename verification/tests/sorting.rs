use rustbook::sorting::{merge, merge_sort, slpit_vector};

#[test]
fn merge_sort_sorts_the_example_list() {
    let list = vec![
        1, 3, 8, 11, 1023, -5, 9, 7, 11, 10, 1, 2, 3, 4, 5, 6, 7, 0, 46, 9, 8, 7, 3, 2, 7,
    ];
    let sorted = merge_sort(list);
    assert_eq!(
        sorted,
        vec![-5, 0, 1, 1, 2, 2, 3, 3, 3, 4, 5, 6, 7, 7, 7, 7, 8, 8, 9, 9, 10, 11, 11, 46, 1023]
    );
}

#[test]
fn merge_sort_small_lists() {
    assert_eq!(merge_sort(vec![5]), vec![5]);
    assert_eq!(merge_sort(vec![2, 1]), vec![1, 2]);
    assert_eq!(merge_sort(vec![1, 2]), vec![1, 2]);
    assert_eq!(merge_sort(vec![3, 3]), vec![3, 3]);
    assert_eq!(merge_sort(vec![3, 1, 2]), vec![1, 2, 3]);
    assert_eq!(merge_sort(vec![i32::MAX, i32::MIN, 0]), vec![i32::MIN, 0, i32::MAX]);
}

#[test]
fn merge_sort_same_elements_same_result() {
    assert_eq!(merge_sort(vec![4, 1, 3, 1]), merge_sort(vec![1, 3, 1, 4]));
}

#[test]
fn merge_takes_smaller_front() {
    assert_eq!(merge(vec![1, 4, 6], vec![2, 3, 7, 8]), vec![1, 2, 3, 4, 6, 7, 8]);
    assert_eq!(merge(vec![], vec![2, 3]), vec![2, 3]);
    assert_eq!(merge(vec![5], vec![]), vec![5]);
    // unsorted inputs are merged front by front
    assert_eq!(merge(vec![3, 1], vec![2]), vec![2, 3, 1]);
}

#[test]
fn split_puts_the_short_half_last() {
    assert_eq!(slpit_vector(vec![1, 2, 3, 4, 5]), (vec![1, 2, 3], vec![4, 5]));
    assert_eq!(slpit_vector(vec![1, 2, 3, 4]), (vec![1, 2], vec![3, 4]));
    assert_eq!(slpit_vector(vec![1]), (vec![1], vec![]));
    assert_eq!(slpit_vector(vec![]), (vec![], vec![]));
}
