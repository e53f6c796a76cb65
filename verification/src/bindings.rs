//! Names and the values bound to them: a constant, a value changed through
//! a unique loan, and names that shadow earlier ones.

use vstd::prelude::*;
use vstd::string::StringSliceAdditionalSpecFns;
use crate::decimal::{decimal, labelled};

verus! {

/// Three hours, in seconds.
pub const THREE_HOURS_IN_SECONDS: u32 = 60 * 60 * 3;

/// The lines of the demonstration.
pub open spec fn shadowing_lines() -> Seq<Seq<char>> {
    seq![
        "The value of x in the inner scope is: "@ + decimal(12),
        "The value of x is: "@ + decimal(6),
        "The value of spaces is: "@ + decimal(3),
    ]
}

/// The demonstration: a value is changed through a unique loan; a name is
/// bound to five, then to one more, and in an inner scope to twice that;
/// a name bound to a text of three spaces is bound anew to its length.
pub fn const_mut_shadowing() -> (lines: Vec<String>)
    ensures
        lines.deep_view() == shadowing_lines(),
{
    let mut lines: Vec<String> = Vec::new();
    proof {
        reveal_strlit("");
    }

    let mut x: i32 = 42;
    let _shared_ref = &x;
    let unique_ref = &mut x;
    *unique_ref += 1;
    assert(x == 43);

    let x: i32 = 5;
    let x: i32 = x + 1;
    {
        let x: i32 = x * 2;
        lines.push(labelled("The value of x in the inner scope is: ", x as u128, ""));
    }
    lines.push(labelled("The value of x is: ", x as u128, ""));

    let spaces = "   ";
    proof {
        broadcast use vstd::utf8::is_ascii_chars_encode_utf8;

        reveal_strlit("   ");
        assert(vstd::utf8::is_ascii_chars(spaces@));
    }
    let spaces: usize = spaces.len();
    lines.push(labelled("The value of spaces is: ", spaces as u128, ""));
    assert forall|i: int| 0 <= i < 3 implies lines.deep_view()[i] == shadowing_lines()[i] by {
        assert(lines.deep_view()[i] == lines[i]@);
    }
    lines
}

} // verus!
