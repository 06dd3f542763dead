use cts2_obc::logic::multiply_by_2;

#[test]
fn test_placeholder() {
    assert_eq!(multiply_by_2(21), 42);
    assert_eq!(multiply_by_2(0), 0);
}

#[test]
fn doubles_the_largest_input_that_fits() {
    assert_eq!(multiply_by_2(u32::MAX / 2), u32::MAX - 1);
    assert_eq!(multiply_by_2(1), 2);
}
