use vstd::prelude::*;
use crate::decimal::{i32_to_decimal, spec_int_text};

verus! {

/// The greeting printed first.
pub open spec fn greeting_line() -> Seq<char> {
    "Hello, world!"@
}

/// The line that demonstrates snake-case naming.
pub open spec fn naming_line() -> Seq<char> {
    "This is a function using snake case styling for the name!"@
}

/// The line that reports a parameter's value.
pub open spec fn parameter_line(x: int) -> Seq<char> {
    "The value of x is: "@ + spec_int_text(x)
}

/// The line that reports a measurement followed by its unit label.
pub open spec fn measurement_line(value: int, unit: char) -> Seq<char> {
    "The measurement is: "@ + spec_int_text(value) + seq![unit]
}

/// The line printed by the statement-versus-expression demonstration:
/// just the bound value.
pub open spec fn statement_line() -> Seq<char> {
    spec_int_text(6)
}

/// The line printed by the scoped-block demonstration: the block's
/// trailing expression evaluates to 4.
pub open spec fn scoped_block_line() -> Seq<char> {
    "The value of y is: "@ + spec_int_text(4)
}

/// The closing line that combines the two returned values.
pub open spec fn combined_line(x: int, y: int) -> Seq<char> {
    "The value of x is: "@ + spec_int_text(x) + ", and the value of y is: "@ + spec_int_text(y)
}

/// The full output, in its fixed order.
pub open spec fn run_lines() -> Seq<Seq<char>> {
    seq![
        greeting_line(),
        naming_line(),
        parameter_line(5),
        measurement_line(5, 'h'),
        statement_line(),
        scoped_block_line(),
        combined_line(5, 6),
    ]
}

/// Relies on String::push: appends exactly the given character.
#[verifier::external_body]
fn push_char(s: &mut String, c: char)
    ensures
        final(s)@ == old(s)@ + seq![c],
{
    s.push(c);
}

/// A routine whose only observable effect is one fixed line of output.
pub fn demonstrate_naming() -> (line: String)
    ensures
        line@ == naming_line(),
{
    "This is a function using snake case styling for the name!".to_string()
}

/// Reports the value of its parameter, interpolated into a fixed template.
pub fn demonstrate_parameter(x: i32) -> (line: String)
    ensures
        line@ == parameter_line(x as int),
{
    let mut line = "The value of x is: ".to_string();
    line.append(i32_to_decimal(x).as_str());
    line
}

/// Reports a measurement: the value directly followed by its unit label.
pub fn demonstrate_labeled_measurement(value: i32, unit_label: char) -> (line: String)
    ensures
        line@ == measurement_line(value as int, unit_label),
{
    let mut line = "The measurement is: ".to_string();
    line.append(i32_to_decimal(value).as_str());
    push_char(&mut line, unit_label);
    line
}

/// Binds a value with a plain statement and reports it; the binding
/// itself yields no value that anything else could consume.
pub fn demonstrate_statement_vs_expression() -> (line: String)
    ensures
        line@ == statement_line(),
{
    let y: i32 = 6;
    i32_to_decimal(y)
}

/// Binds the value of a block expression: the block's trailing
/// expression, 3 + 1, becomes the value of the whole block.
pub fn demonstrate_scoped_block() -> (line: String)
    ensures
        line@ == scoped_block_line(),
{
    let y: i32 = {
        let x: i32 = 3;
        x + 1
    };
    let mut line = "The value of y is: ".to_string();
    line.append(i32_to_decimal(y).as_str());
    line
}

/// Returns its value implicitly, as the trailing expression of its body.
pub fn five() -> (r: i32)
    ensures
        r == 5,
{
    5
}

/// Returns the same kind of value, through an explicit return.
pub fn six() -> (r: i32)
    ensures
        r == 6,
{
    return 6;
}

/// The closing message, combining the two returned values.
pub fn combined_message(x: i32, y: i32) -> (line: String)
    ensures
        line@ == combined_line(x as int, y as int),
{
    let mut line = "The value of x is: ".to_string();
    line.append(i32_to_decimal(x).as_str());
    line.append(", and the value of y is: ");
    line.append(i32_to_decimal(y).as_str());
    line
}

/// Runs every demonstration in the fixed order and returns the lines
/// they produce, greeting first, combined message last.
pub fn run() -> (lines: Vec<String>)
    ensures
        lines@.map_values(|s: String| s@) == run_lines(),
{
    let mut lines: Vec<String> = Vec::new();
    lines.push("Hello, world!".to_string());
    lines.push(demonstrate_naming());
    lines.push(demonstrate_parameter(5));
    lines.push(demonstrate_labeled_measurement(5, 'h'));
    lines.push(demonstrate_statement_vs_expression());
    lines.push(demonstrate_scoped_block());
    let x = five();
    let y = six();
    lines.push(combined_message(x, y));
    proof {
        assert(lines@.map_values(|s: String| s@) =~= run_lines());
    }
    lines
}

/// The output is a fixed value: any two runs, each meeting `run`'s
/// contract, produce identical line sequences, so running twice gives
/// two equal, independent copies of the output.
pub proof fn lemma_run_deterministic(first: Seq<Seq<char>>, second: Seq<Seq<char>>)
    requires
        first == run_lines(),
        second == run_lines(),
    ensures
        first == second,
{
}

} // verus!
