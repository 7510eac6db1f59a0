use tsumari::quantity::{parse_numeral, Quantity, MAX_DIGITS, READING_LIMIT};

fn q(numerator: u128, denominator: u128) -> Quantity {
    Quantity { numerator, denominator }
}

#[test]
fn numeral_of_integer_digits() {
    assert_eq!(parse_numeral(b"800"), Some(q(800, 1)));
    assert_eq!(parse_numeral(b"0"), Some(q(0, 1)));
    assert_eq!(parse_numeral(b"007"), Some(q(7, 1)));
}

#[test]
fn numeral_with_fraction_keeps_every_digit() {
    assert_eq!(parse_numeral(b"15916.4"), Some(q(159164, 10)));
    assert_eq!(parse_numeral(b"0.78125"), Some(q(78125, 100000)));
    assert_eq!(parse_numeral(b"12.50"), Some(q(1250, 100)));
}

#[test]
fn numeral_may_start_or_end_with_the_point() {
    assert_eq!(parse_numeral(b".5"), Some(q(5, 10)));
    assert_eq!(parse_numeral(b"7."), Some(q(7, 1)));
}

#[test]
fn text_without_a_digit_is_no_numeral() {
    assert_eq!(parse_numeral(b""), None);
    assert_eq!(parse_numeral(b"."), None);
    assert_eq!(parse_numeral(b"abc"), None);
}

#[test]
fn sign_exponent_space_and_second_point_are_refused() {
    assert_eq!(parse_numeral(b"-1"), None);
    assert_eq!(parse_numeral(b"+1"), None);
    assert_eq!(parse_numeral(b"1e3"), None);
    assert_eq!(parse_numeral(b" 1"), None);
    assert_eq!(parse_numeral(b"1 "), None);
    assert_eq!(parse_numeral(b"1.2.3"), None);
    assert_eq!(parse_numeral(b"1,5"), None);
    assert_eq!(parse_numeral(b"12G"), None);
}

#[test]
fn numeral_has_at_most_eighteen_digits() {
    assert_eq!(MAX_DIGITS, 18);
    assert_eq!(READING_LIMIT, 1_000_000_000_000_000_000);
    assert_eq!(
        parse_numeral(b"999999999999999999"),
        Some(q(999_999_999_999_999_999, 1))
    );
    assert_eq!(
        parse_numeral(b".999999999999999999"),
        Some(q(999_999_999_999_999_999, 1_000_000_000_000_000_000))
    );
    assert_eq!(parse_numeral(b"1000000000000000000"), None);
    assert_eq!(parse_numeral(b"1.000000000000000000"), None);
}

#[test]
fn zero_is_nought_over_one() {
    assert_eq!(Quantity::zero(), q(0, 1));
}

#[test]
fn divided_by_multiplies_the_denominator() {
    assert_eq!(q(800, 1).divided_by(1024), q(800, 1024));
    assert_eq!(q(159164, 10).divided_by(1024), q(159164, 10240));
}

#[test]
fn percent_of_is_a_hundred_times_the_ratio() {
    assert_eq!(q(800, 1).percent_of(&q(1000, 1)), q(80000, 1000));
    assert_eq!(q(5, 10).percent_of(&q(25, 100)), q(5 * 100 * 100, 10 * 25));
}

#[test]
fn percent_of_nothing_is_zero() {
    assert_eq!(q(0, 1).percent_of(&q(0, 1)), q(0, 1));
    assert_eq!(q(800, 1).percent_of(&q(0, 10)), q(0, 1));
}

#[test]
fn percent_of_the_largest_readings_fits() {
    let top = q(999_999_999_999_999_999, 1_000_000_000_000_000_000);
    let share = top.percent_of(&top);
    assert_eq!(
        share.numerator,
        999_999_999_999_999_999u128 * 1_000_000_000_000_000_000u128 * 100
    );
    assert_eq!(
        share.denominator,
        1_000_000_000_000_000_000u128 * 999_999_999_999_999_999u128
    );
}
