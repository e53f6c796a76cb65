use playground::bindings::{const_mut_shadowing, THREE_HOURS_IN_SECONDS};
use playground::closures::closures;
use playground::flow::{
    control_flow, counted_twice, inclusive_range_line, nested_count, pick, range_line,
};
use playground::ownership::{
    add_one, bigger_one, can_excerpt, get_excerpt, give_away, ownership_and_borrowing, take_over,
    Foo,
};
use playground::pointers::{eat_pie, pie_line, smart_pointers, NotFreshError, Pie, TattleTell};
use playground::strings::{concatenate, join, text};

#[test]
fn shadowing_line_by_line() {
    assert_eq!(
        const_mut_shadowing(),
        vec![
            "The value of x in the inner scope is: 12",
            "The value of x is: 6",
            "The value of spaces is: 3",
        ]
    );
    assert_eq!(THREE_HOURS_IN_SECONDS, 10800);
}

#[test]
fn closures_line_by_line() {
    assert_eq!(
        closures(),
        vec!["Hello, world!", "5 squared is 25", "5 + 3 is 8", "Message: Hello!"]
    );
}

#[test]
fn control_flow_line_by_line() {
    assert_eq!(
        control_flow(),
        vec![
            "The value of number is: 5",
            "The value of result is: 20",
            "count = 0",
            "remaining = 10",
            "remaining = 9",
            "count = 1",
            "remaining = 10",
            "remaining = 9",
            "count = 2",
            "remaining = 10",
            "End count = 2",
            "0 1 2 ",
            "0 1 2 3 ",
        ]
    );
}

#[test]
fn pieces_of_control_flow() {
    assert_eq!(pick(true), 5);
    assert_eq!(pick(false), 6);
    assert_eq!(counted_twice(1), 2);
    assert_eq!(counted_twice(10), 20);
    assert_eq!(range_line(0), "");
    assert_eq!(range_line(3), "0 1 2 ");
    assert_eq!(range_line(12), "0 1 2 3 4 5 6 7 8 9 10 11 ");
    assert_eq!(inclusive_range_line(0), "0 ");
    assert_eq!(inclusive_range_line(3), "0 1 2 3 ");
    let (lines, count) = nested_count();
    assert_eq!(count, 2);
    assert_eq!(lines.len(), 9);
    assert_eq!(lines[8], "End count = 2");
}

#[test]
fn ownership_line_by_line() {
    assert_eq!(
        ownership_and_borrowing(),
        vec![
            "42",
            "Get foo after being borrowed: 42",
            "The var who borrowed from foo: 42",
            "baz.x is still 42 since it was copied before change",
            "foo.x, however, is now updated to 43",
            "bigger one is: 43",
            "Excerpt: f",
        ]
    );
}

#[test]
fn pieces_of_ownership() {
    assert_eq!(take_over(Foo { x: -3 }), -3);
    assert_eq!(give_away(), Foo { x: 42 });
    let mut foo = Foo { x: 42 };
    add_one(&mut foo);
    assert_eq!(foo.x, 43);
    let mut low = Foo { x: i32::MIN };
    add_one(&mut low);
    assert_eq!(low.x, i32::MIN + 1);
    assert_eq!(*bigger_one(&Foo { x: 42 }, &Foo { x: 43 }), 43);
    assert_eq!(*bigger_one(&Foo { x: 43 }, &Foo { x: 42 }), 43);
    assert_eq!(*bigger_one(&Foo { x: -1 }, &Foo { x: -1 }), -1);
}

#[test]
fn excerpt_is_the_first_half_in_bytes() {
    for (text, half) in [("foo", "f"), ("", ""), ("a", ""), ("abcd", "ab"), ("h\u{e9}llo", "h\u{e9}")] {
        let owned = text.to_string();
        assert!(can_excerpt(&owned), "{:?}", text);
        assert_eq!(get_excerpt(&owned).part, half);
    }
    assert!(!can_excerpt(&"\u{e9}a".to_string()));
    assert!(!can_excerpt(&"\u{1f980}".to_string()));
    assert!(can_excerpt(&"a\u{e9}".to_string()));
}

#[test]
fn text_line_by_line() {
    assert_eq!(
        text(),
        vec!["text: hello, \u{1f980}, len: 11", "HELLO WORLD!", "hello world!", "a,b,c"]
    );
}

#[test]
fn concat_and_join_agree_with_the_standard_library() {
    let samples: [&[&str]; 6] =
        [&[], &[""], &["a"], &["a", "b", "c"], &["hello", " ", "world", "!"], &["", "x", ""]];
    for parts in samples {
        assert_eq!(concatenate(parts), parts.concat());
        for separator in ["", ",", ", ", "\u{e9}"] {
            assert_eq!(join(parts, separator), parts.join(separator));
        }
    }
}

#[test]
fn smart_pointers_line_by_line() {
    assert_eq!(
        smart_pointers(140722000000000, "&str", "0.000000000000000000000000000000000000038204714"),
        vec![
            "Memory location of foo: 140722000000000",
            "&str was used!",
            "14",
            "I swear this is a pie! 0.000000000000000000000000000000000000038204714",
            "Error: This pie is not fresh",
        ]
    );
    assert_eq!(smart_pointers(0, "", "")[0], "Memory location of foo: 0");
}

#[test]
fn the_pie_is_never_fresh() {
    assert!(Pie.eat().is_err());
    assert!(eat_pie().is_err());
    assert_eq!(NotFreshError.message(), "This pie is not fresh");
    assert_eq!(pie_line(&eat_pie()), "Error: This pie is not fresh");
    assert_eq!(pie_line(&Ok(())), "Yummy!");
    let foo = TattleTell { value: "secret message" };
    assert_eq!(*foo, "secret message");
    assert_eq!(foo.len(), 14);
    assert_eq!(*TattleTell { value: 7 }, 7);
}
