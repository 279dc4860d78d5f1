use tagged_values::arithmetic::apply_operation;
use tagged_values::arithmetic::factorial;
use tagged_values::arithmetic::fibonacci;
use tagged_values::arithmetic::get_absolute_value;
use tagged_values::arithmetic::multiply;
use tagged_values::arithmetic::parse_division_operands;
use tagged_values::arithmetic::parse_number;
use tagged_values::arithmetic::sum;

#[test]
fn parse_number_accepts_plain_digits() {
    assert_eq!(parse_number("42"), Ok(42));
    assert_eq!(parse_number("0"), Ok(0));
    assert_eq!(parse_number("007"), Ok(7));
}

#[test]
fn parse_number_accepts_signs() {
    assert_eq!(parse_number("-17"), Ok(-17));
    assert_eq!(parse_number("+5"), Ok(5));
    assert_eq!(parse_number("-0"), Ok(0));
    assert_eq!(parse_number("+0"), Ok(0));
}

#[test]
fn parse_number_rejects_malformed_input() {
    assert_eq!(parse_number("4x"), Err("invalid number literal".to_string()));
    assert_eq!(parse_number(""), Err("invalid number literal".to_string()));
    assert_eq!(parse_number("-"), Err("invalid number literal".to_string()));
    assert_eq!(parse_number("+"), Err("invalid number literal".to_string()));
    assert_eq!(parse_number(" 42"), Err("invalid number literal".to_string()));
    assert_eq!(parse_number("42 "), Err("invalid number literal".to_string()));
    assert_eq!(parse_number("4 2"), Err("invalid number literal".to_string()));
    assert_eq!(parse_number("--4"), Err("invalid number literal".to_string()));
}

#[test]
fn parse_number_handles_the_type_bounds() {
    assert_eq!(parse_number("2147483647"), Ok(i32::MAX));
    assert_eq!(parse_number("-2147483648"), Ok(i32::MIN));
    assert_eq!(parse_number("2147483648"), Err("number out of range".to_string()));
    assert_eq!(parse_number("-2147483649"), Err("number out of range".to_string()));
    assert_eq!(
        parse_number("99999999999999999999"),
        Err("number out of range".to_string())
    );
}

#[test]
fn parse_division_operands_accepts_a_nonzero_divisor() {
    assert_eq!(parse_division_operands("10", "2"), Ok((10, 2)));
    assert_eq!(parse_division_operands("-9", "3"), Ok((-9, 3)));
}

#[test]
fn parse_division_operands_rejects_a_zero_divisor() {
    assert_eq!(
        parse_division_operands("10", "0"),
        Err("division by zero".to_string())
    );
}

#[test]
fn parse_division_operands_reports_the_first_parse_failure() {
    // A malformed dividend is reported as a parse failure, never as a
    // division failure, even when the divisor would also be rejected.
    assert_eq!(
        parse_division_operands("x", "2"),
        Err("invalid number literal".to_string())
    );
    assert_eq!(
        parse_division_operands("x", "0"),
        Err("invalid number literal".to_string())
    );
    assert_eq!(
        parse_division_operands("10", "y"),
        Err("invalid number literal".to_string())
    );
}

#[test]
fn multiply_gives_the_product() {
    assert_eq!(multiply(6, 7), 42);
    assert_eq!(multiply(-3, 5), -15);
    assert_eq!(multiply(0, 12345), 0);
}

#[test]
fn absolute_value_flips_only_negatives() {
    assert_eq!(get_absolute_value(-5), 5);
    assert_eq!(get_absolute_value(5), 5);
    assert_eq!(get_absolute_value(0), 0);
}

#[test]
fn sum_adds_the_elements() {
    assert_eq!(sum(&[1, 2, 3]), 6);
    assert_eq!(sum(&[]), 0);
    assert_eq!(sum(&[-4, 4, 10]), 10);
}

#[test]
fn factorial_matches_the_formula() {
    assert_eq!(factorial(0), 1);
    assert_eq!(factorial(1), 1);
    assert_eq!(factorial(5), 120);
    assert_eq!(factorial(12), 479001600);
}

#[test]
fn fibonacci_matches_the_formula() {
    assert_eq!(fibonacci(0), 0);
    assert_eq!(fibonacci(1), 1);
    assert_eq!(fibonacci(2), 1);
    assert_eq!(fibonacci(10), 55);
}

#[test]
fn apply_operation_applies_the_closure() {
    assert_eq!(apply_operation(3, 4, |a, b| a + b), 7);
    assert_eq!(apply_operation(10, 3, |a, b| a - b), 7);
}

#[test]
fn repeated_calls_agree() {
    // Every operation is a pure function of its arguments: a second
    // call with identical inputs returns an identical result.
    assert_eq!(parse_number("-17"), parse_number("-17"));
    assert_eq!(parse_division_operands("10", "0"), parse_division_operands("10", "0"));
    assert_eq!(factorial(7), factorial(7));
    assert_eq!(sum(&[5, 6]), sum(&[5, 6]));
}
