//! Branches and loops: a value picked by a condition, a value handed out
//! of a loop, a nested count that is left from the inside, and two ranges.

use vstd::prelude::*;
use vstd::string::StringExecFns;
use crate::decimal::{decimal, labelled, push_decimal};

verus! {

/// The count at which the counting loop hands out its value.
pub const COUNTER_STOP: u32 = 10;

/// The count at which the nested count is left.
pub const COUNT_STOP: u32 = 2;

/// Where every inner count begins.
pub const REMAINING_START: u32 = 10;

/// Where an inner count ends.
pub const REMAINING_STOP: u32 = 9;

/// Five where the condition holds, six where it does not.
pub fn pick(condition: bool) -> (number: i32)
    ensures
        number == if condition {
            5int
        } else {
            6int
        },
{
    if condition {
        5
    } else {
        6
    }
}

/// Counts up by one from zero to `stop` and hands out twice the count.
pub fn counted_twice(stop: u32) -> (result: u32)
    requires
        1 <= stop <= u32::MAX / 2,
    ensures
        result == 2 * stop,
{
    let mut counter: u32 = 0;
    loop
        invariant
            counter < stop <= u32::MAX / 2,
        decreases stop - counter,
    {
        counter += 1;
        if counter == stop {
            return counter * 2;
        }
    }
}

/// The numbers below `end`, each followed by a space.
pub open spec fn spaced(end: nat) -> Seq<char>
    decreases end,
{
    if end == 0 {
        Seq::empty()
    } else {
        spaced((end - 1) as nat) + decimal((end - 1) as nat) + seq![' ']
    }
}

/// The numbers from zero up to but not including `end`, each followed by a
/// space.
pub fn range_line(end: u32) -> (line: String)
    ensures
        line@ == spaced(end as nat),
{
    let mut line = String::new();
    for x in 0..end
        invariant
            line@ == spaced(x as nat),
    {
        push_decimal(&mut line, x as u128);
        line.push(' ');
    }
    line
}

/// The numbers from zero up to and including `last`, each followed by a
/// space.
pub fn inclusive_range_line(last: u32) -> (line: String)
    ensures
        line@ == spaced((last + 1) as nat),
{
    let mut line = range_line(last);
    push_decimal(&mut line, last as u128);
    line.push(' ');
    line
}

/// The lines of one whole round of the nested count: the count, and the
/// inner count from its start down to its stop.
pub open spec fn round_lines(count: nat) -> Seq<Seq<char>> {
    seq![
        "count = "@ + decimal(count),
        "remaining = "@ + decimal(REMAINING_START as nat),
        "remaining = "@ + decimal(REMAINING_STOP as nat),
    ]
}

/// The lines of the nested count: a whole round for every count below the
/// stop, then the round that is left from the inside after its first line,
/// then the count at the end.
pub open spec fn nested_lines() -> Seq<Seq<char>> {
    round_lines(0) + round_lines(1) + seq![
        "count = "@ + decimal(COUNT_STOP as nat),
        "remaining = "@ + decimal(REMAINING_START as nat),
        "End count = "@ + decimal(COUNT_STOP as nat),
    ]
}

/// The lines of the nested count, one by one.
proof fn lemma_nested_lines()
    ensures
        nested_lines().len() == 9,
        nested_lines()[0] == "count = "@ + decimal(0),
        nested_lines()[1] == "remaining = "@ + decimal(10),
        nested_lines()[2] == "remaining = "@ + decimal(9),
        nested_lines()[3] == "count = "@ + decimal(1),
        nested_lines()[4] == "remaining = "@ + decimal(10),
        nested_lines()[5] == "remaining = "@ + decimal(9),
        nested_lines()[6] == "count = "@ + decimal(2),
        nested_lines()[7] == "remaining = "@ + decimal(10),
        nested_lines()[8] == "End count = "@ + decimal(2),
{
}

/// The lines of the demonstration.
pub open spec fn control_flow_lines() -> Seq<Seq<char>> {
    seq!["The value of number is: "@ + decimal(5), "The value of result is: "@ + decimal(20)]
        + nested_lines() + seq![spaced(3), spaced(4)]
}

/// The nested count: an outer count up from zero and, inside it, a count
/// down from ten that ends at nine. At the outer count of two the inner
/// loop leaves both loops.
pub fn nested_count() -> (done: (Vec<String>, u32))
    ensures
        done.0.deep_view() == nested_lines(),
        done.1 == COUNT_STOP,
{
    let mut lines: Vec<String> = Vec::new();
    let mut count: u32 = 0;
    proof {
        reveal_strlit("");
    }
    'counting_up: loop
        invariant_except_break
            count <= COUNT_STOP,
            lines.len() == 3 * count,
            forall|i: int| 0 <= i < lines.len() ==> (#[trigger] lines[i])@ == nested_lines()[i],
        ensures
            count == COUNT_STOP,
            lines.len() == 8,
            forall|i: int| 0 <= i < lines.len() ==> (#[trigger] lines[i])@ == nested_lines()[i],
        decreases COUNT_STOP - count,
    {
        proof {
            reveal_strlit("");
            lemma_nested_lines();
        }
        lines.push(labelled("count = ", count as u128, ""));
        let mut remaining: u32 = REMAINING_START;
        loop
            invariant_except_break
                count <= COUNT_STOP,
                REMAINING_STOP <= remaining <= REMAINING_START,
                remaining == REMAINING_STOP ==> count < COUNT_STOP,
                lines.len() == 3 * count + 1 + (REMAINING_START - remaining),
                forall|i: int| 0 <= i < lines.len() ==> (#[trigger] lines[i])@ == nested_lines()[i],
            ensures
                count < COUNT_STOP,
                lines.len() == 3 * count + 3,
                forall|i: int| 0 <= i < lines.len() ==> (#[trigger] lines[i])@ == nested_lines()[i],
            decreases remaining,
        {
            proof {
                reveal_strlit("");
                lemma_nested_lines();
            }
            lines.push(labelled("remaining = ", remaining as u128, ""));
            if remaining == REMAINING_STOP {
                break;
            }
            if count == COUNT_STOP {
                break 'counting_up;
            }
            remaining -= 1;
        }
        count += 1;
    }
    lines.push(labelled("End count = ", count as u128, ""));
    proof {
        lemma_nested_lines();
    }
    assert forall|i: int| 0 <= i < 9 implies lines.deep_view()[i] == nested_lines()[i] by {
        assert(lines.deep_view()[i] == lines[i]@);
    }
    (lines, count)
}

/// The demonstration: a number picked by a condition, a value handed out of
/// a loop, the nested count, and two ranges.
pub fn control_flow() -> (lines: Vec<String>)
    ensures
        lines.deep_view() == control_flow_lines(),
{
    let mut lines: Vec<String> = Vec::new();
    proof {
        reveal_strlit("");
    }
    let condition = true;
    let number = pick(condition);
    lines.push(labelled("The value of number is: ", number as u128, ""));
    let result = counted_twice(COUNTER_STOP);
    lines.push(labelled("The value of result is: ", result as u128, ""));
    let (mut nested, _) = nested_count();
    let ghost counted = nested.deep_view();
    let ghost first = lines.deep_view();
    lines.append(&mut nested);
    assert(lines.deep_view() =~= first + counted);
    lines.push(range_line(3));
    lines.push(inclusive_range_line(3));
    assert(lines.deep_view() =~= control_flow_lines());
    lines
}

} // verus!
