//! The extremum-selection utilities on their own.

use minimax::extremum::{max, max_by};

#[test]
fn max_returns_the_greatest_value() {
    assert_eq!(max(&vec![3, -5, 3]), 3);
    assert_eq!(max(&vec![-7]), -7);
    assert_eq!(max(&vec![0, 2, 9, 2]), 9);
}

#[test]
fn max_by_keeps_the_first_of_equal_keys() {
    let items = vec![10, 20, 30];
    let keys = vec![5, 5, 4];
    assert_eq!(max_by(&items, &keys), 10);
}

#[test]
fn max_by_moves_only_on_a_strictly_greater_key() {
    let items = vec![10, 20, 30];
    let keys = vec![1, 7, 7];
    assert_eq!(max_by(&items, &keys), 20);
}

#[test]
fn max_handles_extreme_values() {
    assert_eq!(max(&vec![i64::MIN, i64::MAX]), i64::MAX);
    assert_eq!(max(&vec![i64::MIN]), i64::MIN);
}
