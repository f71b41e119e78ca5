use account_service::calc::divide;

#[test]
fn test_divide() {
    assert_eq!(divide(10, 2).unwrap(), 5);
}

#[test]
fn test_divide_by_zero() {
    assert!(divide(10, 0).is_err());
}

#[test]
fn divide_truncates_toward_zero() {
    assert_eq!(divide(7, 2).unwrap(), 3);
    assert_eq!(divide(-7, 2).unwrap(), -3);
    assert_eq!(divide(7, -2).unwrap(), -3);
    assert_eq!(divide(-7, -2).unwrap(), 3);
}

#[test]
fn divide_exact_and_edges() {
    assert_eq!(divide(0, 5).unwrap(), 0);
    assert_eq!(divide(-9, 3).unwrap(), -3);
    assert_eq!(divide(i32::MIN, 1).unwrap(), i32::MIN);
    assert_eq!(divide(i32::MIN, 2).unwrap(), i32::MIN / 2);
    assert_eq!(divide(i32::MAX, -1).unwrap(), -i32::MAX);
}

#[test]
fn divide_by_zero_message() {
    assert_eq!(divide(-3, 0).unwrap_err(), "Cannot divide by zero");
}
