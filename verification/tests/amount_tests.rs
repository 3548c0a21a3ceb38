use transaction::Amount;

#[test]
fn test_amount_equality_ignores_scale() {
    assert_eq!(Amount::new(1000, 1), Amount::from(100));
    assert_eq!(Amount::new(100000, 3), Amount::new(1000, 1));
    assert_ne!(Amount::new(1001, 1), Amount::from(100));
    assert_eq!(Amount::zero(), Amount::new(0, 5));
}

#[test]
fn test_amount_ordering() {
    assert!(Amount::new(1234, 4) < Amount::new(1235, 4));
    assert!(Amount::new(12345, 5) > Amount::new(1234, 4));
    assert!(Amount::from(-1) < Amount::zero());
    assert!(Amount::new(5, 1) <= Amount::new(50, 2));
    assert!(Amount::new(1, 0).less_than(&Amount::new(11, 1)));
    assert!(!Amount::new(11, 1).less_than(&Amount::new(1, 0)));
    assert!(Amount::from(-3).is_negative());
    assert!(!Amount::zero().is_negative());
}

#[test]
fn test_amount_checked_arithmetic() {
    let a = Amount::new(1005, 1); // 100.5
    let b = Amount::new(2525, 2); // 25.25
    let sum = a.checked_add(&b).unwrap();
    assert_eq!(sum, Amount::new(12575, 2));
    assert_eq!(sum.scale(), 2);
    assert_eq!(sum.mantissa(), 12575);
    let difference = a.checked_sub(&b).unwrap();
    assert_eq!(difference, Amount::new(7525, 2));
    assert_eq!(b.checked_sub(&a).unwrap(), Amount::new(-7525, 2));
    let max = Amount::from_i128_with_scale(79_228_162_514_264_337_593_543_950_335, 0);
    assert!(max.checked_add(&Amount::from(1)).is_none());
    assert!(max.checked_sub(&Amount::from(1)).is_some());
    let min = Amount::from_i128_with_scale(-79_228_162_514_264_337_593_543_950_335, 0);
    assert!(min.checked_sub(&Amount::from(1)).is_none());
}

#[test]
fn test_amount_abs() {
    let a = Amount::new(-12345, 3);
    assert_eq!(a.abs(), Amount::new(12345, 3));
    assert_eq!(a.abs().scale(), 3);
    assert_eq!(Amount::new(7, 2).abs(), Amount::new(7, 2));
}

#[test]
fn test_amount_parts() {
    let a = Amount::new(-42, 7);
    assert_eq!(a.mantissa(), -42);
    assert_eq!(a.scale(), 7);
    let b = Amount::from(99);
    assert_eq!(b.mantissa(), 99);
    assert_eq!(b.scale(), 0);
}
