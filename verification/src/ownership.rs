//! Values that are owned, lent and given away, and an excerpt that borrows
//! from the text it was taken from.

use vstd::prelude::*;
use vstd::string::{StringExecFns, StringSliceAdditionalSpecFns};
use vstd::utf8::{encode_utf8, is_ascii_chars, is_char_boundary};
use crate::decimal::{labelled_signed, signed_decimal};

verus! {

/// A value with one number in it.
#[derive(Clone, Copy, Debug, PartialEq, Eq, Structural)]
pub struct Foo {
    /// The number.
    pub x: i32,
}

/// A part of a text, borrowed from it.
#[derive(Debug)]
pub struct ImportantExcerpt<'a> {
    /// The part.
    pub part: &'a str,
}

/// Takes a value over and gives its number.
pub fn take_over(f: Foo) -> (x: i32)
    ensures
        x == f.x,
{
    f.x
}

/// Makes a value and gives it away.
pub fn give_away() -> (f: Foo)
    ensures
        f.x == 42,
{
    Foo { x: 42 }
}

/// Adds one to the number of a value that was lent for changing.
pub fn add_one(f: &mut Foo)
    requires
        old(f).x < i32::MAX,
    ensures
        final(f).x == old(f).x + 1,
{
    f.x += 1;
}

/// The greater of the two numbers; the second where they are equal.
pub fn bigger_one<'a>(foo: &'a Foo, bar: &'a Foo) -> (bigger: &'a i32)
    ensures
        *bigger == if foo.x > bar.x {
            foo.x
        } else {
            bar.x
        },
        *bigger >= foo.x,
        *bigger >= bar.x,
{
    if foo.x > bar.x {
        &foo.x
    } else {
        &bar.x
    }
}

/// Where the excerpt of a text ends: at half of its length in bytes.
pub open spec fn excerpt_end(s: Seq<char>) -> int {
    (encode_utf8(s).len() as usize) as int / 2
}

/// Whether a text has an excerpt: half of its length in bytes must not fall
/// inside a character.
pub open spec fn has_excerpt(s: Seq<char>) -> bool {
    is_char_boundary(encode_utf8(s), excerpt_end(s))
}

/// In a text of ASCII characters every place is the start of a character,
/// and the bytes up to a place are the characters up to it.
proof fn lemma_ascii_prefix(s: Seq<char>, mid: int, part: Seq<char>)
    requires
        is_ascii_chars(s),
        0 <= mid <= encode_utf8(s).len(),
        encode_utf8(part) == encode_utf8(s).subrange(0, mid),
    ensures
        part == s.take(mid),
{
    broadcast use vstd::utf8::group_utf8_lib;

    let head = s.take(mid);
    assert(is_ascii_chars(head));
    assert(encode_utf8(head) =~= encode_utf8(s).subrange(0, mid));
    assert(vstd::utf8::decode_utf8(encode_utf8(head)) == head);
    assert(vstd::utf8::decode_utf8(encode_utf8(part)) == part);
}

/// In a text of ASCII characters every place is the start of a character.
proof fn lemma_ascii_boundary(s: Seq<char>, mid: int)
    requires
        is_ascii_chars(s),
        0 <= mid <= encode_utf8(s).len(),
    ensures
        is_char_boundary(encode_utf8(s), mid),
        encode_utf8(s).len() == s.len(),
{
    broadcast use vstd::utf8::group_utf8_lib;

    let bytes = encode_utf8(s);
    if mid < s.len() {
        assert(bytes[mid] == s[mid] as u8);
        assert(!vstd::utf8::is_continuation_byte(bytes[mid]));
    }
}

/// Whether `s` has an excerpt.
pub fn can_excerpt(s: &String) -> (b: bool)
    ensures
        b == has_excerpt(s@),
        is_ascii_chars(s@) ==> b,
{
    proof {
        if is_ascii_chars(s@) {
            lemma_ascii_boundary(s@, excerpt_end(s@));
        }
    }
    s.as_str().is_char_boundary(s.as_str().len() / 2)
}

/// The first half of `s`, counted in bytes.
pub fn get_excerpt<'a>(s: &'a String) -> (excerpt: ImportantExcerpt<'a>)
    requires
        has_excerpt(s@),
    ensures
        encode_utf8(excerpt.part@) == encode_utf8(s@).subrange(0, excerpt_end(s@)),
        is_ascii_chars(s@) ==> excerpt.part@ == s@.take(excerpt_end(s@)),
{
    let text = s.as_str();
    let (part, _) = text.split_at(text.len() / 2);
    proof {
        if is_ascii_chars(s@) {
            lemma_ascii_boundary(s@, excerpt_end(s@));
            lemma_ascii_prefix(s@, excerpt_end(s@), part@);
        }
    }
    ImportantExcerpt { part }
}

/// The lines of the demonstration.
pub open spec fn ownership_lines() -> Seq<Seq<char>> {
    seq![
        signed_decimal(42),
        "Get foo after being borrowed: "@ + signed_decimal(42),
        "The var who borrowed from foo: "@ + signed_decimal(42),
        "baz.x is still "@ + signed_decimal(42) + " since it was copied before change"@,
        "foo.x, however, is now updated to "@ + signed_decimal(43),
        "bigger one is: "@ + signed_decimal(43),
        "Excerpt: "@ + "foo"@.take(1),
    ]
}

/// The demonstration: a value is made and dropped, handed over, handed
/// back, lent for reading, lent for changing, copied out of a loan, and
/// compared through loans; at last a text lends its first half.
pub fn ownership_and_borrowing() -> (lines: Vec<String>)
    ensures
        lines.deep_view() == ownership_lines(),
{
    let mut lines: Vec<String> = Vec::new();
    proof {
        reveal_strlit("");
    }
    {
        let _foo = Foo { x: 42 };
    }
    {
        let foo = Foo { x: 42 };
        lines.push(labelled_signed("", take_over(foo) as i64, ""));
    }
    {
        let _foo = give_away();
    }
    {
        let foo = Foo { x: 42 };
        let bar = &foo;
        lines.push(labelled_signed("Get foo after being borrowed: ", foo.x as i64, ""));
        lines.push(labelled_signed("The var who borrowed from foo: ", bar.x as i64, ""));
    }
    {
        let mut foo = Foo { x: 42 };
        let bar = &mut foo;
        bar.x = 43;
        foo.x = 43;
    }
    {
        let mut foo = Foo { x: 42 };
        let bar = &mut foo;
        let baz = *bar;
        *bar = Foo { x: 43 };
        lines.push(
            labelled_signed("baz.x is still ", baz.x as i64, " since it was copied before change"),
        );
        lines.push(labelled_signed("foo.x, however, is now updated to ", foo.x as i64, ""));
    }
    {
        let mut foo = Foo { x: 42 };
        add_one(&mut foo);
    }
    {
        let foo = Foo { x: 42 };
        let bar = Foo { x: 43 };
        lines.push(labelled_signed("bigger one is: ", *bigger_one(&foo, &bar) as i64, ""));

        let foo = String::from_str("foo");
        proof {
            reveal_strlit("foo");
            lemma_ascii_boundary(foo@, excerpt_end(foo@));
        }
        let excerpt = get_excerpt(&foo);
        let mut line = String::from_str("Excerpt: ");
        line.append(excerpt.part);
        lines.push(line);
    }
    assert forall|i: int| 0 <= i < 7 implies lines.deep_view()[i] == ownership_lines()[i] by {
        assert(lines.deep_view()[i] == lines[i]@);
    }
    lines
}

} // verus!
