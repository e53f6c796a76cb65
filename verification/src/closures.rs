//! Functions without a name, with none, one and two parameters, and with a
//! parameter that is passed over.

use vstd::prelude::*;
use vstd::string::StringExecFns;
use crate::decimal::{labelled_signed, signed_decimal};

verus! {

/// The lines of the demonstration.
pub open spec fn closure_lines() -> Seq<Seq<char>> {
    seq![
        "Hello, world!"@,
        "5 squared is "@ + signed_decimal(25),
        "5 + 3 is "@ + signed_decimal(8),
        "Message: "@ + "Hello!"@,
    ]
}

/// The demonstration: a greeting, the square of five, the sum of five and
/// three, and a message whose first argument is passed over.
pub fn closures() -> (lines: Vec<String>)
    ensures
        lines.deep_view() == closure_lines(),
{
    let mut lines: Vec<String> = Vec::new();
    proof {
        reveal_strlit("");
    }

    let greeting = || -> (line: String)
        ensures
            line@ == "Hello, world!"@,
        { String::from_str("Hello, world!") };
    lines.push(greeting());

    let square = |x: i32| -> (squared: i32)
        requires
            -46340 <= x <= 46340,
        ensures
            squared == x * x,
        {
            assert(x * x <= 46340 * 46340) by (nonlinear_arith)
                requires
                    -46340 <= x <= 46340,
            ;
            assert(x * x >= 0) by (nonlinear_arith);
            x * x
        };
    let result: i32 = square(5);
    lines.push(labelled_signed("5 squared is ", result as i64, ""));

    let sum_of = |x: i32, y: i32| -> (sum: i32)
        requires
            i32::MIN <= x + y <= i32::MAX,
        ensures
            sum == x + y,
        { x + y };
    let result: i32 = sum_of(5, 3);
    lines.push(labelled_signed("5 + 3 is ", result as i64, ""));

    let print_message = |_unused: i32, message: &str| -> (line: String)
        ensures
            line@ == "Message: "@ + message@,
        {
            let mut line = String::from_str("Message: ");
            line.append(message);
            line
        };
    lines.push(print_message(42, "Hello!"));

    assert forall|i: int| 0 <= i < 4 implies lines.deep_view()[i] == closure_lines()[i] by {
        assert(lines.deep_view()[i] == lines[i]@);
    }
    lines
}

} // verus!
