use rust_labs::arith::{
    check_size_add, check_size_add_result, check_size_mult, check_size_mult_result, my_function,
};

#[test]
fn check_size_add_fits() {
    assert!(check_size_add(1, 2));
    assert!(check_size_add(u32::MAX - 2, 2));
}

#[test]
fn check_size_mult_fits() {
    assert!(check_size_mult(65535, 65537));
    assert!(check_size_mult(0, u32::MAX));
}

#[test]
fn check_size_add_result_ok() {
    assert_eq!(check_size_add_result(42949, 2), Ok(42951));
    assert_eq!(check_size_add_result(u32::MAX, 0), Ok(u32::MAX));
}

#[test]
fn check_size_add_result_overflow() {
    assert_eq!(
        check_size_add_result(u32::MAX, 2),
        Err("The result is greater than the size of u32")
    );
}

#[test]
fn check_size_mult_result_ok() {
    assert_eq!(check_size_mult_result(42949, 2), Ok(85898));
}

#[test]
fn check_size_mult_result_overflow() {
    assert_eq!(
        check_size_mult_result(u32::MAX, 2),
        Err("The result is greater than the size of u32")
    );
    assert_eq!(
        check_size_mult_result(65536, 65536),
        Err("The result is greater than the size of u32")
    );
}

#[test]
fn my_function_odd_sum_is_none() {
    assert_eq!(my_function(1235), None);
}

#[test]
fn my_function_even_sum() {
    assert_eq!(my_function(1234), Some(10));
    assert_eq!(my_function(0), Some(0));
    assert_eq!(my_function(4_000_000_000), Some(4));
}

#[test]
fn my_function_largest_digit_sum() {
    assert_eq!(my_function(3_999_999_999), Some(84));
    assert_eq!(my_function(2_999_999_999), None);
    assert_eq!(my_function(u32::MAX), None);
}
