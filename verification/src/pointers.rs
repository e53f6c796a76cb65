//! Values behind pointers: a wrapper that is looked through to what it
//! holds, and a pie on the heap that cannot be eaten.

use vstd::prelude::*;
use vstd::string::{StringExecFns, StringSliceAdditionalSpecFns};
use crate::decimal::{decimal, labelled};

verus! {

/// A wrapper around a value, looked through to the value it holds.
#[derive(Debug)]
pub struct TattleTell<T> {
    /// The value.
    pub value: T,
}

impl<T> core::ops::Deref for TattleTell<T> {
    type Target = T;

    /// The value that the wrapper holds.
    fn deref(&self) -> (value: &T)
        ensures
            *value == self.value,
    {
        &self.value
    }
}

/// A pie.
#[derive(Debug)]
pub struct Pie;

/// The failure of a pie that is not fresh.
#[derive(Debug)]
pub struct NotFreshError;

impl NotFreshError {
    /// What the failure says.
    pub fn message(&self) -> (text: &'static str)
        ensures
            text@ == "This pie is not fresh"@,
    {
        "This pie is not fresh"
    }
}

impl Pie {
    /// Eats the pie, which always fails: it is not fresh.
    pub fn eat(&self) -> (eaten: Result<(), NotFreshError>)
        ensures
            eaten == Err::<(), NotFreshError>(NotFreshError),
    {
        Err(NotFreshError)
    }
}

/// Puts a pie on the heap and eats it. The failure of the pie is handed on.
pub fn eat_pie() -> (eaten: Result<(), NotFreshError>)
    ensures
        eaten == Err::<(), NotFreshError>(NotFreshError),
{
    let heap_pie = Box::new(Pie);
    heap_pie.eat()?;
    Ok(())
}

/// The line that reports how eating went.
pub fn pie_line(eaten: &Result<(), NotFreshError>) -> (line: String)
    ensures
        line@ == match eaten {
            Ok(_) => "Yummy!"@,
            Err(_) => "Error: "@ + "This pie is not fresh"@,
        },
{
    match eaten {
        Ok(_) => String::from_str("Yummy!"),
        Err(e) => {
            let mut line = String::from_str("Error: ");
            line.append(e.message());
            line
        },
    }
}

/// The lines of the demonstration, for the place in memory, the name of the
/// type and the number that the caller found.
pub open spec fn pointer_lines(
    memory_location: nat,
    wrapped_type: Seq<char>,
    pie: Seq<char>,
) -> Seq<Seq<char>> {
    seq![
        "Memory location of foo: "@ + decimal(memory_location),
        wrapped_type + " was used!"@,
        decimal(14),
        "I swear this is a pie! "@ + pie,
        "Error: "@ + "This pie is not fresh"@,
    ]
}

/// The demonstration: a place in memory, a wrapper whose use is told, the
/// length of the text it holds, four bytes read as a number, and a pie
/// that is not fresh. The place in memory, the name of the wrapped type and
/// the number read from the bytes are found by the caller.
pub fn smart_pointers(memory_location: usize, wrapped_type: &str, pie: &str) -> (lines: Vec<String>)
    ensures
        lines.deep_view() == pointer_lines(memory_location as nat, wrapped_type@, pie@),
{
    let mut lines: Vec<String> = Vec::new();
    proof {
        reveal_strlit("");
    }
    lines.push(labelled("Memory location of foo: ", memory_location as u128, ""));

    let foo = TattleTell { value: "secret message" };
    let mut used = String::from_str(wrapped_type);
    used.append(" was used!");
    lines.push(used);
    proof {
        broadcast use vstd::utf8::is_ascii_chars_encode_utf8;

        reveal_strlit("secret message");
        assert(vstd::utf8::is_ascii_chars("secret message"@));
    }
    lines.push(labelled("", foo.len() as u128, ""));

    let mut swear = String::from_str("I swear this is a pie! ");
    swear.append(pie);
    lines.push(swear);

    lines.push(pie_line(&eat_pie()));
    assert forall|i: int| 0 <= i < 5 implies lines.deep_view()[i] == pointer_lines(
        memory_location as nat,
        wrapped_type@,
        pie@,
    )[i] by {
        assert(lines.deep_view()[i] == lines[i]@);
    }
    lines
}

} // verus!
