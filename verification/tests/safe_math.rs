use locker::errors::LockerError;
use locker::safe_math::{safe_add, safe_mul, safe_sub};

#[test]
fn safe_add_returns_exact_sums_inside_the_domain() {
    assert_eq!(safe_add(0, 0), Ok(0));
    assert_eq!(safe_add(2, 3), Ok(5));
    assert_eq!(safe_add(u64::MAX - 1, 1), Ok(u64::MAX));
}

#[test]
fn safe_add_rejects_sums_beyond_the_domain() {
    assert_eq!(safe_add(u64::MAX, 1), Err(LockerError::ArithmeticOverflow));
    assert_eq!(
        safe_add(u64::MAX, u64::MAX),
        Err(LockerError::ArithmeticOverflow)
    );
}

#[test]
fn safe_sub_returns_exact_differences_at_or_above_zero() {
    assert_eq!(safe_sub(5, 3), Ok(2));
    assert_eq!(safe_sub(5, 5), Ok(0));
    assert_eq!(safe_sub(u64::MAX, 0), Ok(u64::MAX));
}

#[test]
fn safe_sub_rejects_differences_below_zero() {
    assert_eq!(safe_sub(3, 5), Err(LockerError::ArithmeticUnderflow));
    assert_eq!(safe_sub(0, 1), Err(LockerError::ArithmeticUnderflow));
}

#[test]
fn safe_mul_returns_exact_products_inside_the_domain() {
    assert_eq!(safe_mul(0, u64::MAX), Ok(0));
    assert_eq!(safe_mul(6, 7), Ok(42));
    assert_eq!(safe_mul(u64::MAX, 1), Ok(u64::MAX));
}

#[test]
fn safe_mul_rejects_products_beyond_the_domain() {
    assert_eq!(
        safe_mul(u64::MAX, 2),
        Err(LockerError::ArithmeticOverflow)
    );
    assert_eq!(
        safe_mul(1 << 32, 1 << 32),
        Err(LockerError::ArithmeticOverflow)
    );
}
