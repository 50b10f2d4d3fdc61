use demo_lines::decimal::i32_to_decimal;
use demo_lines::demos::combined_message;
use demo_lines::demos::demonstrate_labeled_measurement;
use demo_lines::demos::demonstrate_naming;
use demo_lines::demos::demonstrate_parameter;
use demo_lines::demos::demonstrate_scoped_block;
use demo_lines::demos::demonstrate_statement_vs_expression;
use demo_lines::demos::five;
use demo_lines::demos::run;
use demo_lines::demos::six;

#[test]
fn decimal_zero() {
    assert_eq!(i32_to_decimal(0), "0");
}

#[test]
fn decimal_single_digit() {
    assert_eq!(i32_to_decimal(7), "7");
}

#[test]
fn decimal_multi_digit() {
    assert_eq!(i32_to_decimal(1234567890), "1234567890");
}

#[test]
fn decimal_negative() {
    assert_eq!(i32_to_decimal(-12), "-12");
}

#[test]
fn decimal_extremes() {
    assert_eq!(i32_to_decimal(i32::MAX), "2147483647");
    assert_eq!(i32_to_decimal(i32::MIN), "-2147483648");
}

#[test]
fn naming_line_is_fixed() {
    assert_eq!(
        demonstrate_naming(),
        "This is a function using snake case styling for the name!"
    );
}

#[test]
fn parameter_line_substitutes_the_value() {
    assert_eq!(demonstrate_parameter(5), "The value of x is: 5");
    assert_eq!(demonstrate_parameter(0), "The value of x is: 0");
    assert_eq!(demonstrate_parameter(-42), "The value of x is: -42");
}

#[test]
fn measurement_line_five_h() {
    assert_eq!(demonstrate_labeled_measurement(5, 'h'), "The measurement is: 5h");
}

#[test]
fn measurement_line_other_unit() {
    assert_eq!(demonstrate_labeled_measurement(-3, 'm'), "The measurement is: -3m");
}

#[test]
fn statement_line_is_six() {
    assert_eq!(demonstrate_statement_vs_expression(), "6");
}

#[test]
fn scoped_block_line_is_four() {
    assert_eq!(demonstrate_scoped_block(), "The value of y is: 4");
}

#[test]
fn implicit_and_explicit_returns() {
    assert_eq!(five(), 5);
    assert_eq!(six(), 6);
    assert_eq!(
        combined_message(five(), six()),
        "The value of x is: 5, and the value of y is: 6"
    );
}

#[test]
fn run_order_is_fixed() {
    let lines = run();
    let expected = vec![
        "Hello, world!",
        "This is a function using snake case styling for the name!",
        "The value of x is: 5",
        "The measurement is: 5h",
        "6",
        "The value of y is: 4",
        "The value of x is: 5, and the value of y is: 6",
    ];
    assert_eq!(lines.len(), expected.len());
    for (line, want) in lines.iter().zip(expected.iter()) {
        assert_eq!(line, want);
    }
}

#[test]
fn run_twice_gives_identical_output() {
    let first = run();
    let second = run();
    assert_eq!(first, second);
}
