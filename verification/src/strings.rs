//! Texts: their length, their upper case, and texts put together with and
//! without a separator.

use vstd::prelude::*;
use vstd::string::{StringExecFns, StringSliceAdditionalSpecFns};
use vstd::utf8::encode_utf8;
use crate::chars::{to_uppercase, uppercase_of};
use crate::decimal::{decimal, labelled};

verus! {

/// The texts of a list of string slices.
pub open spec fn texts_of(parts: Seq<&str>) -> Seq<Seq<char>> {
    Seq::new(parts.len(), |i: int| parts[i]@)
}

/// The texts of `parts` put together, in order.
pub open spec fn concat_of(parts: Seq<Seq<char>>) -> Seq<char>
    decreases parts.len(),
{
    if parts.len() == 0 {
        Seq::empty()
    } else {
        concat_of(parts.drop_last()) + parts.last()
    }
}

/// The texts of `parts` put together, in order, with `separator` between
/// each two of them.
pub open spec fn join_of(parts: Seq<Seq<char>>, separator: Seq<char>) -> Seq<char>
    decreases parts.len(),
{
    if parts.len() == 0 {
        Seq::empty()
    } else if parts.len() == 1 {
        parts[0]
    } else {
        join_of(parts.drop_last(), separator) + separator + parts.last()
    }
}

/// Puts the texts of `parts` together, in order.
pub fn concatenate(parts: &[&str]) -> (text: String)
    ensures
        text@ == concat_of(texts_of(parts@)),
{
    let mut text = String::new();
    let mut i: usize = 0;
    while i < parts.len()
        invariant
            i <= parts.len(),
            text@ == concat_of(texts_of(parts@).take(i as int)),
        decreases parts.len() - i,
    {
        let ghost next = texts_of(parts@).take(i + 1);
        assert(next.drop_last() == texts_of(parts@).take(i as int));
        assert(next.last() == parts[i as int]@);
        text.append(parts[i]);
        i += 1;
    }
    assert(texts_of(parts@).take(parts.len() as int) == texts_of(parts@));
    text
}

/// Puts the texts of `parts` together, in order, with `separator` between
/// each two of them.
pub fn join(parts: &[&str], separator: &str) -> (text: String)
    ensures
        text@ == join_of(texts_of(parts@), separator@),
{
    let mut text = String::new();
    let mut i: usize = 0;
    while i < parts.len()
        invariant
            i <= parts.len(),
            text@ == join_of(texts_of(parts@).take(i as int), separator@),
        decreases parts.len() - i,
    {
        let ghost next = texts_of(parts@).take(i + 1);
        assert(next.drop_last() == texts_of(parts@).take(i as int));
        assert(next.last() == parts[i as int]@);
        if i > 0 {
            text.append(separator);
        } else {
            assert(next[0] == parts[0]@);
        }
        text.append(parts[i]);
        i += 1;
    }
    assert(texts_of(parts@).take(parts.len() as int) == texts_of(parts@));
    text
}

/// The length of `text` in bytes, as its line shows it.
pub open spec fn byte_length(text: Seq<char>) -> nat {
    (encode_utf8(text).len() as usize) as nat
}

/// The lines of the demonstration.
pub open spec fn text_lines() -> Seq<Seq<char>> {
    seq![
        "text: "@ + "hello, \u{1f980}"@ + ", len: "@ + decimal(byte_length("hello, \u{1f980}"@)),
        uppercase_of("hello"@ + " world!"@),
        concat_of(seq!["hello"@, " "@, "world"@, "!"@]),
        join_of(seq!["a"@, "b"@, "c"@], ","@),
    ]
}

/// The demonstration: a text with its length in bytes, a text in upper
/// case, four texts put together, and three texts joined by commas.
pub fn text() -> (lines: Vec<String>)
    ensures
        lines.deep_view() == text_lines(),
{
    let mut lines: Vec<String> = Vec::new();
    proof {
        reveal_strlit("");
    }

    let a: &'static str = "hello, \u{1f980}";
    let mut first = String::from_str("text: ");
    first.append(a);
    let length = labelled(", len: ", a.len() as u128, "");
    first.append(length.as_str());
    lines.push(first);

    let mut s = String::from_str("hello");
    s.append(" world!");
    lines.push(to_uppercase(s.as_str()));

    let parts = ["hello", " ", "world", "!"];
    assert(texts_of(parts@) =~= seq!["hello"@, " "@, "world"@, "!"@]);
    lines.push(concatenate(&parts));

    let letters = ["a", "b", "c"];
    assert(texts_of(letters@) =~= seq!["a"@, "b"@, "c"@]);
    lines.push(join(&letters, ","));

    assert forall|i: int| 0 <= i < 4 implies lines.deep_view()[i] == text_lines()[i] by {
        assert(lines.deep_view()[i] == lines[i]@);
    }
    lines
}

} // verus!
