use primer::arith::{recursion_sum, recursive_sum, sum};

#[test]
fn it_works_1() {
    let result = recursive_sum(1, 2);
    assert_eq!(result, 3);
}

#[test]
fn it_works_2() {
    let result = recursive_sum(123, 123);
    assert_eq!(result, 246);
}

#[test]
fn test_recursive_sum() {
    assert_eq!(recursive_sum(2, 3), 5);
    assert_eq!(recursive_sum(0, 0), 0);
    assert_eq!(recursive_sum(10, 5), 15);
    assert_eq!(recursive_sum(100, 200), 300);
}

#[test]
fn recursive_sum_reaches_the_top() {
    assert_eq!(recursive_sum(u64::MAX - 10, 5), u64::MAX - 5);
    assert_eq!(recursive_sum(u64::MAX - 3, 3), u64::MAX);
}

#[test]
fn sum_adds() {
    assert_eq!(sum(2, 3), 5);
    assert_eq!(sum(-7, 3), -4);
    assert_eq!(sum(i32::MAX, 0), i32::MAX);
    assert_eq!(sum(i32::MIN, i32::MAX), -1);
}

#[test]
fn recursion_sum_counts_up() {
    assert_eq!(recursion_sum(5, 10), 15);
    assert_eq!(recursion_sum(-4, 4), 0);
    assert_eq!(recursion_sum(9, 0), 9);
}
