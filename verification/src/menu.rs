//! The menu of demonstrations: what it shows, how an answer picks a
//! demonstration, and what is shown for an answer that picks none.

use rand::Rng;
use vstd::prelude::*;
use vstd::string::StringExecFns;
use crate::chars::{same_text, trim, trimmed};
use crate::decimal::{
    decimal, lemma_decimal_digits, push_decimal, push_right_aligned, push_signed_decimal,
    right_aligned,
    signed_decimal,
};

verus! {

/// The demonstrations, in the order of the menu.
#[derive(Clone, Copy, Debug, PartialEq, Eq, Structural)]
pub enum Demo {
    /// Scores compared with the pass mark until one passes.
    CompareNumber,
    /// Constants, changeable values and names that shadow others.
    ConstMutShadowing,
    /// Branches and loops.
    ControlFlow,
    /// Functions without a name.
    Closures,
    /// Access points and their addresses.
    EnumStruct,
    /// Values that may be absent and results that may fail.
    GenericType,
    /// Owned and lent values.
    OwnershipBorrowing,
    /// Texts.
    Text,
    /// Token accounting for chat messages.
    Oop,
    /// Values behind pointers.
    SmartPointers,
    /// Two units of background work.
    TokioAsync,
}

/// How many demonstrations the menu has.
pub const DEMO_COUNT: u8 = 11;

/// The least number that an unknown answer is met with.
pub const FALLBACK_LOW: i32 = 1;

/// The greatest number that an unknown answer is met with.
pub const FALLBACK_HIGH: i32 = 100;

/// The place of a demonstration in the menu, counted from one.
pub open spec fn number_of(demo: Demo) -> nat {
    match demo {
        Demo::CompareNumber => 1,
        Demo::ConstMutShadowing => 2,
        Demo::ControlFlow => 3,
        Demo::Closures => 4,
        Demo::EnumStruct => 5,
        Demo::GenericType => 6,
        Demo::OwnershipBorrowing => 7,
        Demo::Text => 8,
        Demo::Oop => 9,
        Demo::SmartPointers => 10,
        Demo::TokioAsync => 11,
    }
}

/// The demonstration at place `n` of the menu; `None` where the menu has
/// no such place.
pub open spec fn demo_at(n: nat) -> Option<Demo> {
    if n == 1 {
        Some(Demo::CompareNumber)
    } else if n == 2 {
        Some(Demo::ConstMutShadowing)
    } else if n == 3 {
        Some(Demo::ControlFlow)
    } else if n == 4 {
        Some(Demo::Closures)
    } else if n == 5 {
        Some(Demo::EnumStruct)
    } else if n == 6 {
        Some(Demo::GenericType)
    } else if n == 7 {
        Some(Demo::OwnershipBorrowing)
    } else if n == 8 {
        Some(Demo::Text)
    } else if n == 9 {
        Some(Demo::Oop)
    } else if n == 10 {
        Some(Demo::SmartPointers)
    } else if n == 11 {
        Some(Demo::TokioAsync)
    } else {
        None
    }
}

/// The name of a demonstration in the menu.
pub open spec fn title_of(demo: Demo) -> Seq<char> {
    match demo {
        Demo::CompareNumber => "Compare number"@,
        Demo::ConstMutShadowing => "Const, Mut and Shadowing"@,
        Demo::ControlFlow => "Control Flow"@,
        Demo::Closures => "Closures"@,
        Demo::EnumStruct => "Enum and Struct"@,
        Demo::GenericType => "Generic Type"@,
        Demo::OwnershipBorrowing => "Ownership and Borrowing"@,
        Demo::Text => "Text"@,
        Demo::Oop => "OOP"@,
        Demo::SmartPointers => "Smart Pointers"@,
        Demo::TokioAsync => "Tokio Asynchronous Programming"@,
    }
}

/// The answer that picks a demonstration: its number in base ten.
pub open spec fn code_of(demo: Demo) -> Seq<char> {
    decimal(number_of(demo))
}

/// The demonstration that an answer picks: the one whose code is the answer
/// without the white space around it. `None` where there is no such one.
pub open spec fn selection_of(answer: Seq<char>) -> Option<Demo> {
    if exists|demo: Demo| trimmed(answer) == code_of(demo) {
        Some(choose|demo: Demo| trimmed(answer) == code_of(demo))
    } else {
        None
    }
}

/// The line of the menu for a demonstration: its number, right-aligned in
/// two columns, a colon, and its name.
pub open spec fn entry_of(demo: Demo) -> Seq<char> {
    right_aligned(code_of(demo), 2) + ": "@ + title_of(demo)
}

/// The first `count` lines of the menu, each with a line break after it.
pub open spec fn entries_text(count: nat) -> Seq<char>
    decreases count,
{
    if count == 0 {
        Seq::empty()
    } else {
        match demo_at(count) {
            Some(demo) => entries_text((count - 1) as nat) + entry_of(demo) + seq!['\n'],
            None => entries_text((count - 1) as nat),
        }
    }
}

/// All that is shown before an answer is read: the greeting, the lines of
/// the menu, and the request for an answer, which ends without a line break.
pub open spec fn menu_text() -> Seq<char> {
    "Welcome to Rust playground. Author: Tyler\n=========================================\n"@
        + entries_text(DEMO_COUNT as nat) + "=========================================\nEnter option: "@
}

/// The line shown for an answer that picks no demonstration.
pub open spec fn fallback_of(number: int) -> Seq<char> {
    "Undefined but show a random number for you: "@ + signed_decimal(number)
}

impl Demo {
    /// The place of this demonstration in the menu, counted from one.
    pub fn number(self) -> (n: u8)
        ensures
            n == number_of(self),
            1 <= n <= DEMO_COUNT,
    {
        match self {
            Demo::CompareNumber => 1,
            Demo::ConstMutShadowing => 2,
            Demo::ControlFlow => 3,
            Demo::Closures => 4,
            Demo::EnumStruct => 5,
            Demo::GenericType => 6,
            Demo::OwnershipBorrowing => 7,
            Demo::Text => 8,
            Demo::Oop => 9,
            Demo::SmartPointers => 10,
            Demo::TokioAsync => 11,
        }
    }

    /// The demonstration at place `n` of the menu; `None` where the menu has
    /// no such place.
    pub fn from_number(n: u8) -> (demo: Option<Demo>)
        ensures
            demo == demo_at(n as nat),
            match demo {
                Some(d) => number_of(d) == n,
                None => forall|d: Demo| number_of(d) != n,
            },
    {
        match n {
            1 => Some(Demo::CompareNumber),
            2 => Some(Demo::ConstMutShadowing),
            3 => Some(Demo::ControlFlow),
            4 => Some(Demo::Closures),
            5 => Some(Demo::EnumStruct),
            6 => Some(Demo::GenericType),
            7 => Some(Demo::OwnershipBorrowing),
            8 => Some(Demo::Text),
            9 => Some(Demo::Oop),
            10 => Some(Demo::SmartPointers),
            11 => Some(Demo::TokioAsync),
            _ => None,
        }
    }

    /// The name of this demonstration in the menu.
    pub fn title(self) -> (title: &'static str)
        ensures
            title@ == title_of(self),
    {
        match self {
            Demo::CompareNumber => "Compare number",
            Demo::ConstMutShadowing => "Const, Mut and Shadowing",
            Demo::ControlFlow => "Control Flow",
            Demo::Closures => "Closures",
            Demo::EnumStruct => "Enum and Struct",
            Demo::GenericType => "Generic Type",
            Demo::OwnershipBorrowing => "Ownership and Borrowing",
            Demo::Text => "Text",
            Demo::Oop => "OOP",
            Demo::SmartPointers => "Smart Pointers",
            Demo::TokioAsync => "Tokio Asynchronous Programming",
        }
    }

    /// The answer that picks this demonstration.
    pub fn code(self) -> (code: String)
        ensures
            code@ == code_of(self),
    {
        let mut code = String::new();
        push_decimal(&mut code, self.number() as u128);
        code
    }

    /// The line of the menu for this demonstration.
    pub fn entry(self) -> (line: String)
        ensures
            line@ == entry_of(self),
    {
        let mut line = String::new();
        push_right_aligned(&mut line, self.number() as u128, 2);
        line.append(": ");
        line.append(self.title());
        line
    }
}

/// Two demonstrations with the same code are the same demonstration.
pub proof fn lemma_codes_distinct(a: Demo, b: Demo)
    requires
        code_of(a) == code_of(b),
    ensures
        a == b,
{
    lemma_decimal_digits(number_of(a));
    lemma_decimal_digits(number_of(b));
}

/// The demonstration that `answer` picks: the one whose code is the answer
/// without the white space around it.
pub fn select(answer: &str) -> (picked: Option<Demo>)
    ensures
        picked == selection_of(answer@),
        match picked {
            Some(demo) => trimmed(answer@) == code_of(demo),
            None => forall|demo: Demo| trimmed(answer@) != code_of(demo),
        },
{
    let text = trim(answer);
    let mut n: u8 = 1;
    while n <= DEMO_COUNT
        invariant
            1 <= n <= DEMO_COUNT + 1,
            text@ == trimmed(answer@),
            forall|demo: Demo| number_of(demo) < n ==> text@ != code_of(demo),
        decreases DEMO_COUNT + 1 - n,
    {
        match Demo::from_number(n) {
            Some(demo) => {
                let code = demo.code();
                if same_text(text.as_str(), code.as_str()) {
                    proof {
                        let chosen = choose|d: Demo| trimmed(answer@) == code_of(d);
                        lemma_codes_distinct(chosen, demo);
                    }
                    return Some(demo);
                }
                assert forall|other: Demo| number_of(other) < n + 1 implies text@ != code_of(
                    other,
                ) by {
                    if number_of(other) == n {
                        assert(other == demo);
                    }
                }
            },
            None => {},
        }
        n += 1;
    }
    assert forall|demo: Demo| trimmed(answer@) != code_of(demo) by {
        assert(number_of(demo) < n);
    }
    None
}

/// All that is shown before an answer is read.
pub fn cli_out_options() -> (text: String)
    ensures
        text@ == menu_text(),
{
    let mut text = String::from_str(
        "Welcome to Rust playground. Author: Tyler\n=========================================\n",
    );
    let mut n: u8 = 1;
    while n <= DEMO_COUNT
        invariant
            1 <= n <= DEMO_COUNT + 1,
            text@
                == "Welcome to Rust playground. Author: Tyler\n=========================================\n"@
                + entries_text((n - 1) as nat),
        decreases DEMO_COUNT + 1 - n,
    {
        match Demo::from_number(n) {
            Some(demo) => {
                let line = demo.entry();
                text.append(line.as_str());
                text.push('\n');
            },
            None => {},
        }
        n += 1;
    }
    text.append("=========================================\nEnter option: ");
    text
}

/// `Rng::random_range` of the `rand` crate, on the generator that
/// `rand::rng` hands out, with the half-open range from `low` to `high`: the
/// number drawn is at least `low` and below `high`. Which number it is
/// differs from call to call. The call panics on an empty range, which
/// `requires` leaves out, and where the operating system gives the
/// generator nothing to start from.
#[verifier::external_body]
fn random_between(low: i32, high: i32) -> (number: i32)
    requires
        low < high,
    ensures
        low <= number < high,
{
    rand::rng().random_range(low..high)
}

/// Draws the number that an unknown answer is met with.
pub fn fallback_number() -> (number: i32)
    ensures
        FALLBACK_LOW <= number <= FALLBACK_HIGH,
        1 <= number <= 100,
{
    random_between(FALLBACK_LOW, FALLBACK_HIGH + 1)
}

/// The line shown for an answer that picks no demonstration.
pub fn fallback_line(number: i32) -> (line: String)
    ensures
        line@ == fallback_of(number as int),
{
    let mut line = String::from_str("Undefined but show a random number for you: ");
    push_signed_decimal(&mut line, number as i64);
    line
}

} // verus!
