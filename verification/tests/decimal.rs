use deezer::decimal::{u32_to_string, u64_to_string};

#[test]
fn zero_is_written_as_one_digit() {
    assert_eq!(u64_to_string(0), "0");
}

#[test]
fn single_digits_are_written_as_themselves() {
    assert_eq!(u64_to_string(7), "7");
    assert_eq!(u64_to_string(9), "9");
}

#[test]
fn numbers_are_written_most_significant_digit_first() {
    assert_eq!(u64_to_string(10), "10");
    assert_eq!(u64_to_string(302127), "302127");
    assert_eq!(u64_to_string(4179157801), "4179157801");
}

#[test]
fn the_largest_numbers_are_written_in_full() {
    assert_eq!(u64_to_string(u64::MAX), "18446744073709551615");
    assert_eq!(u32_to_string(u32::MAX), "4294967295");
}

#[test]
fn decimal_agrees_with_std_on_a_sweep() {
    let mut n: u64 = 0;
    while n < 5000 {
        assert_eq!(u64_to_string(n), n.to_string());
        n += 37;
    }
}
