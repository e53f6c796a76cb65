use playground::tasks::{
    advance, fibonacci, fibonacci_line, fibonacci_takes, fibonacci_unit, sleep_line, Action,
    Event, Stage, Unit, FIBONACCI_INPUT, FIBONACCI_MAX_INPUT, SLEEP_MILLIS, SLEEP_RESULT,
};

#[test]
fn fibonacci_numbers() {
    let expected = [0, 1, 1, 2, 3, 5, 8, 13, 21, 34, 55, 89, 144, 233, 377, 610];
    for (n, value) in expected.iter().enumerate() {
        assert_eq!(fibonacci(n as i8), *value);
    }
    assert_eq!(fibonacci(20), 6765);
    assert_eq!(fibonacci(30), 832040);
}

#[test]
fn fibonacci_takes_zero_to_forty_six() {
    assert!(!fibonacci_takes(-1));
    assert!(!fibonacci_takes(i8::MIN));
    assert!(fibonacci_takes(0));
    assert!(fibonacci_takes(40));
    assert!(fibonacci_takes(46));
    assert!(!fibonacci_takes(47));
    assert!(!fibonacci_takes(i8::MAX));
    assert_eq!(FIBONACCI_MAX_INPUT, 46);
}

#[test]
fn lines_of_the_units() {
    assert_eq!(sleep_line(), "Blocking operation: 1000 ms have elapsed");
    assert_eq!(fibonacci_line(40, 102334155), "Fibonacci(40) = 102334155");
    assert_eq!(fibonacci_line(0, 0), "Fibonacci(0) = 0");
    assert_eq!(SLEEP_MILLIS, 1000);
    assert_eq!(SLEEP_RESULT, 42);
    assert_eq!(FIBONACCI_INPUT, 40);
}

#[test]
fn the_computing_unit_computes_the_fortieth_number() {
    let (result, line) = fibonacci_unit();
    assert_eq!(result, 102334155);
    assert_eq!(line, "Fibonacci(40) = 102334155");
}

#[test]
fn both_units_complete_in_turn() {
    let (stage, action) = advance(Stage::Idle, Event::Started);
    assert_eq!((stage, action), (Stage::AwaitingSleep, Action::Spawn(Unit::Sleep)));
    let (stage, action) = advance(stage, Event::Joined);
    assert_eq!((stage, action), (Stage::AwaitingFibonacci, Action::Spawn(Unit::Fibonacci)));
    let (stage, action) = advance(stage, Event::Joined);
    assert_eq!((stage, action), (Stage::Finished, Action::Exit));
}

#[test]
fn a_unit_that_panics_ends_the_demonstration() {
    assert_eq!(advance(Stage::AwaitingSleep, Event::Panicked), (Stage::Aborted, Action::Abort));
    assert_eq!(
        advance(Stage::AwaitingFibonacci, Event::Panicked),
        (Stage::Aborted, Action::Abort)
    );
}

#[test]
fn events_that_do_not_belong_change_nothing() {
    let stages =
        [Stage::Idle, Stage::AwaitingSleep, Stage::AwaitingFibonacci, Stage::Finished, Stage::Aborted];
    let events = [Event::Started, Event::Joined, Event::Panicked];
    let mut ignored = 0;
    for stage in stages {
        for event in events {
            let (next, action) = advance(stage, event);
            if action == Action::Ignore {
                assert_eq!(next, stage);
                ignored += 1;
            } else {
                assert!(next != stage);
            }
        }
    }
    assert_eq!(ignored, 10);
    assert_eq!(advance(Stage::Idle, Event::Joined), (Stage::Idle, Action::Ignore));
    assert_eq!(advance(Stage::Finished, Event::Started), (Stage::Finished, Action::Ignore));
    assert_eq!(advance(Stage::Aborted, Event::Joined), (Stage::Aborted, Action::Ignore));
}
