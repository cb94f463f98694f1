use uvl_macros::builtins::{checked_abs, checked_shift_left, checked_shift_right, checked_substring, SubstringError};

#[test]
fn shift_left_within_range() {
    assert_eq!(checked_shift_left(1, 0), Some(1));
    assert_eq!(checked_shift_left(1, 3), Some(8));
    assert_eq!(checked_shift_left(-3, 2), Some(-12));
    assert_eq!(checked_shift_left(1, 63), Some(i64::MIN));
    assert_eq!(checked_shift_left(3, 63), Some(i64::MIN));
}

#[test]
fn shift_left_out_of_range() {
    assert_eq!(checked_shift_left(1, 64), None);
    assert_eq!(checked_shift_left(1, -1), None);
    assert_eq!(checked_shift_left(0, i64::MAX), None);
}

#[test]
fn shift_right_is_arithmetic() {
    assert_eq!(checked_shift_right(1200, 2), Some(300));
    assert_eq!(checked_shift_right(-8, 1), Some(-4));
    assert_eq!(checked_shift_right(-1, 63), Some(-1));
    assert_eq!(checked_shift_right(5, 64), None);
    assert_eq!(checked_shift_right(5, -2), None);
}

#[test]
fn absolute_values() {
    assert_eq!(checked_abs(-3), Some(3));
    assert_eq!(checked_abs(7), Some(7));
    assert_eq!(checked_abs(0), Some(0));
    assert_eq!(checked_abs(i64::MAX), Some(i64::MAX));
    assert_eq!(checked_abs(-i64::MAX), Some(i64::MAX));
    assert_eq!(checked_abs(i64::MIN), None);
}

#[test]
fn substrings_by_byte_offsets() {
    assert_eq!(checked_substring("CrazyCompany", 0, Some(5)), Ok("Crazy".to_string()));
    assert_eq!(checked_substring("CrazyCompany", 5, None), Ok("Company".to_string()));
    assert_eq!(checked_substring("CrazyCompany", 12, None), Ok(String::new()));
    assert_eq!(checked_substring("été", 0, Some(2)), Ok("é".to_string()));
    assert_eq!(checked_substring("été", 2, None), Ok("té".to_string()));
}

#[test]
fn substring_out_of_bounds() {
    assert_eq!(checked_substring("abc", -1, None), Err(SubstringError::OutOfBounds));
    assert_eq!(checked_substring("abc", 0, Some(-1)), Err(SubstringError::OutOfBounds));
    assert_eq!(checked_substring("abc", 2, Some(1)), Err(SubstringError::OutOfBounds));
    assert_eq!(checked_substring("abc", 0, Some(4)), Err(SubstringError::OutOfBounds));
    assert_eq!(checked_substring("abc", 4, None), Err(SubstringError::OutOfBounds));
}

#[test]
fn substring_inside_a_character() {
    assert_eq!(checked_substring("été", 1, None), Err(SubstringError::NotCharBoundary));
    assert_eq!(checked_substring("été", 0, Some(1)), Err(SubstringError::NotCharBoundary));
    assert_eq!(checked_substring("été", 0, Some(4)), Err(SubstringError::NotCharBoundary));
}
