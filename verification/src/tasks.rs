//! Two units of background work, one that waits and one that computes, and
//! the order in which they are launched and awaited.

use vstd::prelude::*;
use vstd::string::StringExecFns;
use crate::decimal::{decimal, labelled, push_signed_decimal, signed_decimal};

verus! {

/// How long the waiting unit waits, in milliseconds.
pub const SLEEP_MILLIS: u64 = 1000;

/// What the waiting unit hands back.
pub const SLEEP_RESULT: i32 = 42;

/// The input of the computing unit.
pub const FIBONACCI_INPUT: i8 = 40;

/// The greatest input whose Fibonacci number fits 32 bits with a sign.
pub const FIBONACCI_MAX_INPUT: i8 = 46;

/// The Fibonacci numbers: 0, 1, and from there on the sum of the two
/// before.
pub open spec fn fib(n: nat) -> nat
    decreases n,
{
    if n == 0 {
        0
    } else if n == 1 {
        1
    } else {
        fib((n - 1) as nat) + fib((n - 2) as nat)
    }
}

/// The Fibonacci numbers do not decrease.
pub proof fn lemma_fib_monotonic(i: nat, j: nat)
    requires
        i <= j,
    ensures
        fib(i) <= fib(j),
    decreases j,
{
    if i < j {
        lemma_fib_monotonic(i, (j - 1) as nat);
        if j >= 2 {
            assert(fib(j) == fib((j - 1) as nat) + fib((j - 2) as nat));
        }
    }
}

/// The forty-sixth Fibonacci number, reached step by step.
proof fn lemma_fib_46()
    ensures
        fib(46) == 1836311903,
{
    assert(fib(0) == 0);
    assert(fib(1) == 1);
    assert(fib(2) == 1);
    assert(fib(3) == 2);
    assert(fib(4) == 3);
    assert(fib(5) == 5);
    assert(fib(6) == 8);
    assert(fib(7) == 13);
    assert(fib(8) == 21);
    assert(fib(9) == 34);
    assert(fib(10) == 55);
    assert(fib(11) == 89);
    assert(fib(12) == 144);
    assert(fib(13) == 233);
    assert(fib(14) == 377);
    assert(fib(15) == 610);
    assert(fib(16) == 987);
    assert(fib(17) == 1597);
    assert(fib(18) == 2584);
    assert(fib(19) == 4181);
    assert(fib(20) == 6765);
    assert(fib(21) == 10946);
    assert(fib(22) == 17711);
    assert(fib(23) == 28657);
    assert(fib(24) == 46368);
    assert(fib(25) == 75025);
    assert(fib(26) == 121393);
    assert(fib(27) == 196418);
    assert(fib(28) == 317811);
    assert(fib(29) == 514229);
    assert(fib(30) == 832040);
    assert(fib(31) == 1346269);
    assert(fib(32) == 2178309);
    assert(fib(33) == 3524578);
    assert(fib(34) == 5702887);
    assert(fib(35) == 9227465);
    assert(fib(36) == 14930352);
    assert(fib(37) == 24157817);
    assert(fib(38) == 39088169);
    assert(fib(39) == 63245986);
    assert(fib(40) == 102334155);
    assert(fib(41) == 165580141);
    assert(fib(42) == 267914296);
    assert(fib(43) == 433494437);
    assert(fib(44) == 701408733);
    assert(fib(45) == 1134903170);
    assert(fib(46) == 1836311903);
}

/// Up to the greatest input, a Fibonacci number fits 32 bits with a sign.
pub proof fn lemma_fib_fits(n: nat)
    requires
        n <= FIBONACCI_MAX_INPUT,
    ensures
        fib(n) <= i32::MAX,
{
    lemma_fib_46();
    lemma_fib_monotonic(n, 46);
}

/// The Fibonacci number of `n`, computed by the two recursive calls of its
/// definition.
pub fn fibonacci(n: i8) -> (result: i32)
    requires
        0 <= n <= FIBONACCI_MAX_INPUT,
    ensures
        result == fib(n as nat),
    decreases n,
{
    match n {
        0 => 0,
        1 => 1,
        _ => {
            proof {
                lemma_fib_fits(n as nat);
            }
            fibonacci(n - 1) + fibonacci(n - 2)
        },
    }
}

/// Whether `fibonacci` takes `n`.
pub fn fibonacci_takes(n: i8) -> (b: bool)
    ensures
        b == (0 <= n <= FIBONACCI_MAX_INPUT),
{
    0 <= n && n <= FIBONACCI_MAX_INPUT
}

/// The line that the waiting unit reports with.
pub fn sleep_line() -> (line: String)
    ensures
        line@ == "Blocking operation: "@ + decimal(SLEEP_MILLIS as nat) + " ms have elapsed"@,
{
    labelled("Blocking operation: ", SLEEP_MILLIS as u128, " ms have elapsed")
}

/// The line that the computing unit reports with.
pub open spec fn fibonacci_line_of(n: int, result: int) -> Seq<char> {
    "Fibonacci("@ + signed_decimal(n) + ") = "@ + signed_decimal(result)
}

/// The line that reports the Fibonacci number `result` of `n`.
pub fn fibonacci_line(n: i8, result: i32) -> (line: String)
    ensures
        line@ == fibonacci_line_of(n as int, result as int),
{
    let mut line = String::from_str("Fibonacci(");
    push_signed_decimal(&mut line, n as i64);
    line.append(") = ");
    push_signed_decimal(&mut line, result as i64);
    line
}

/// The work of the computing unit: the Fibonacci number of its input, and
/// the line that reports it.
pub fn fibonacci_unit() -> (done: (i32, String))
    ensures
        done.0 == fib(FIBONACCI_INPUT as nat),
        done.1@ == fibonacci_line_of(FIBONACCI_INPUT as int, fib(FIBONACCI_INPUT as nat) as int),
{
    let result = fibonacci(FIBONACCI_INPUT);
    (result, fibonacci_line(FIBONACCI_INPUT, result))
}

/// The two units of work.
#[derive(Clone, Copy, Debug, PartialEq, Eq, Structural)]
pub enum Unit {
    /// Waits for a fixed time.
    Sleep,
    /// Computes a Fibonacci number.
    Fibonacci,
}

/// Where the demonstration stands.
#[derive(Clone, Copy, Debug, PartialEq, Eq, Structural)]
pub enum Stage {
    /// Nothing has been launched.
    Idle,
    /// The waiting unit runs and is awaited.
    AwaitingSleep,
    /// The computing unit runs and is awaited.
    AwaitingFibonacci,
    /// Both units have completed.
    Finished,
    /// A unit ended abnormally.
    Aborted,
}

/// What the caller reports back.
#[derive(Clone, Copy, Debug, PartialEq, Eq, Structural)]
pub enum Event {
    /// The demonstration was asked for.
    Started,
    /// The awaited unit completed.
    Joined,
    /// The awaited unit ended abnormally.
    Panicked,
}

/// What the caller is to do next.
#[derive(Clone, Copy, Debug, PartialEq, Eq, Structural)]
pub enum Action {
    /// Launch a unit on the pool for blocking work and await it.
    Spawn(Unit),
    /// End with success.
    Exit,
    /// End with the failure of the unit.
    Abort,
    /// Nothing: the event does not belong to the stage.
    Ignore,
}

/// The stage and the action that follow an event. The waiting unit is
/// launched first; the computing unit is launched when the waiting unit has
/// completed; the end comes when the computing unit has completed. A unit
/// that ends abnormally ends the demonstration. An event that does not
/// belong to the stage changes nothing.
pub open spec fn next_of(stage: Stage, event: Event) -> (Stage, Action) {
    match (stage, event) {
        (Stage::Idle, Event::Started) => (Stage::AwaitingSleep, Action::Spawn(Unit::Sleep)),
        (Stage::AwaitingSleep, Event::Joined) => (
            Stage::AwaitingFibonacci,
            Action::Spawn(Unit::Fibonacci),
        ),
        (Stage::AwaitingFibonacci, Event::Joined) => (Stage::Finished, Action::Exit),
        (Stage::AwaitingSleep, Event::Panicked) => (Stage::Aborted, Action::Abort),
        (Stage::AwaitingFibonacci, Event::Panicked) => (Stage::Aborted, Action::Abort),
        _ => (stage, Action::Ignore),
    }
}

/// Decides what follows `event` at `stage`.
pub fn advance(stage: Stage, event: Event) -> (next: (Stage, Action))
    ensures
        next == next_of(stage, event),
        next.1 == Action::Spawn(Unit::Fibonacci) <==> stage == Stage::AwaitingSleep && event
            == Event::Joined,
        next.1 == Action::Exit <==> stage == Stage::AwaitingFibonacci && event == Event::Joined,
{
    match (stage, event) {
        (Stage::Idle, Event::Started) => (Stage::AwaitingSleep, Action::Spawn(Unit::Sleep)),
        (Stage::AwaitingSleep, Event::Joined) => (
            Stage::AwaitingFibonacci,
            Action::Spawn(Unit::Fibonacci),
        ),
        (Stage::AwaitingFibonacci, Event::Joined) => (Stage::Finished, Action::Exit),
        (Stage::AwaitingSleep, Event::Panicked) => (Stage::Aborted, Action::Abort),
        (Stage::AwaitingFibonacci, Event::Panicked) => (Stage::Aborted, Action::Abort),
        _ => (stage, Action::Ignore),
    }
}

/// The stage reached from `stage` by a sequence of events, taken in order.
pub open spec fn stage_after(stage: Stage, events: Seq<Event>) -> Stage
    decreases events.len(),
{
    if events.len() == 0 {
        stage
    } else {
        stage_after(next_of(stage, events[0]).0, events.skip(1))
    }
}

/// How often `event` occurs in `events`.
pub open spec fn occurrences(events: Seq<Event>, event: Event) -> nat
    decreases events.len(),
{
    if events.len() == 0 {
        0
    } else {
        occurrences(events.drop_last(), event) + if events.last() == event {
            1nat
        } else {
            0nat
        }
    }
}

/// Whatever events come, the demonstration has finished only where it was
/// started and a unit has completed twice.
pub proof fn lemma_finished_needs_both(events: Seq<Event>)
    requires
        stage_after(Stage::Idle, events) == Stage::Finished,
    ensures
        occurrences(events, Event::Started) >= 1,
        occurrences(events, Event::Joined) >= 2,
{
    lemma_progress(Stage::Idle, events);
}

/// The number of completions that a stage still needs to be finished;
/// `None` for the stage that cannot finish any more.
pub open spec fn joins_needed(stage: Stage) -> Option<nat> {
    match stage {
        Stage::Idle => Some(2),
        Stage::AwaitingSleep => Some(2),
        Stage::AwaitingFibonacci => Some(1),
        Stage::Finished => Some(0),
        Stage::Aborted => None,
    }
}

/// A finished demonstration has seen the completions that its first stage
/// still needed, and a start where it was idle.
proof fn lemma_progress(stage: Stage, events: Seq<Event>)
    requires
        stage_after(stage, events) == Stage::Finished,
    ensures
        joins_needed(stage) matches Some(needed) && occurrences(events, Event::Joined) >= needed,
        stage == Stage::Idle ==> occurrences(events, Event::Started) >= 1,
    decreases events.len(),
{
    if events.len() == 0 {
    } else {
        let rest = events.skip(1);
        lemma_progress(next_of(stage, events[0]).0, rest);
        lemma_occurrences_first(events, Event::Joined);
        lemma_occurrences_first(events, Event::Started);
    }
}

/// Counting from the front gives what counting from the back gives.
proof fn lemma_occurrences_first(events: Seq<Event>, event: Event)
    requires
        events.len() > 0,
    ensures
        occurrences(events, event) == occurrences(events.skip(1), event) + if events[0] == event {
            1nat
        } else {
            0nat
        },
    decreases events.len(),
{
    if events.len() == 1 {
        assert(events.drop_last() == events.skip(1));
        assert(occurrences(events.skip(1), event) == 0);
    } else {
        lemma_occurrences_first(events.drop_last(), event);
        assert(events.drop_last().skip(1) == events.skip(1).drop_last());
        assert(events.skip(1).last() == events.last());
    }
}

} // verus!
