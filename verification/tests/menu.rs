use playground::menu::{cli_out_options, fallback_line, fallback_number, select, Demo};

#[test]
fn codes_pick_their_demonstrations() {
    assert_eq!(select("1"), Some(Demo::CompareNumber));
    assert_eq!(select("2"), Some(Demo::ConstMutShadowing));
    assert_eq!(select("3"), Some(Demo::ControlFlow));
    assert_eq!(select("4"), Some(Demo::Closures));
    assert_eq!(select("5"), Some(Demo::EnumStruct));
    assert_eq!(select("6"), Some(Demo::GenericType));
    assert_eq!(select("7"), Some(Demo::OwnershipBorrowing));
    assert_eq!(select("8"), Some(Demo::Text));
    assert_eq!(select("9"), Some(Demo::Oop));
    assert_eq!(select("10"), Some(Demo::SmartPointers));
    assert_eq!(select("11"), Some(Demo::TokioAsync));
}

#[test]
fn answers_are_trimmed_before_they_are_matched() {
    assert_eq!(select("1\n"), Some(Demo::CompareNumber));
    assert_eq!(select("  11 \r\n"), Some(Demo::TokioAsync));
    assert_eq!(select("\t5"), Some(Demo::EnumStruct));
}

#[test]
fn other_answers_pick_nothing() {
    for answer in ["99", "", "\n", "0", "12", "01", "+1", "1 1", "one", "1.0", "111", "-1"] {
        assert_eq!(select(answer), None, "{:?}", answer);
    }
}

#[test]
fn numbers_titles_and_codes() {
    for n in 0u8..=20 {
        match Demo::from_number(n) {
            Some(demo) => {
                assert!((1..=11).contains(&n));
                assert_eq!(demo.number(), n);
                assert_eq!(demo.code(), n.to_string());
                assert_eq!(select(&demo.code()), Some(demo));
            }
            None => assert!(n == 0 || n > 11),
        }
    }
    assert_eq!(Demo::CompareNumber.title(), "Compare number");
    assert_eq!(Demo::TokioAsync.title(), "Tokio Asynchronous Programming");
    assert_eq!(Demo::CompareNumber.entry(), " 1: Compare number");
    assert_eq!(Demo::SmartPointers.entry(), "10: Smart Pointers");
}

#[test]
fn the_menu_is_shown_in_full() {
    let expected = "Welcome to Rust playground. Author: Tyler\n\
=========================================\n \
1: Compare number\n \
2: Const, Mut and Shadowing\n \
3: Control Flow\n \
4: Closures\n \
5: Enum and Struct\n \
6: Generic Type\n \
7: Ownership and Borrowing\n \
8: Text\n \
9: OOP\n\
10: Smart Pointers\n\
11: Tokio Asynchronous Programming\n\
=========================================\n\
Enter option: ";
    assert_eq!(cli_out_options(), expected);
}

#[test]
fn unknown_answer_is_met_with_a_number_from_one_to_a_hundred() {
    assert_eq!(select("99"), None);
    let mut seen_other_than_bounds = false;
    for _ in 0..1000 {
        let number = fallback_number();
        assert!((1..=100).contains(&number));
        if number != 1 && number != 101 {
            seen_other_than_bounds = true;
        }
        let line = fallback_line(number);
        assert_eq!(line, format!("Undefined but show a random number for you: {}", number));
    }
    assert!(seen_other_than_bounds);
}

#[test]
fn fallback_line_shows_the_number() {
    assert_eq!(fallback_line(1), "Undefined but show a random number for you: 1");
    assert_eq!(fallback_line(57), "Undefined but show a random number for you: 57");
    assert_eq!(fallback_line(100), "Undefined but show a random number for you: 100");
}
