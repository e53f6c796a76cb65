use playground::score::{classify, cmp_num, continues, execute, parse_score, prompt, Verdict};

fn lines(texts: &[&str]) -> Vec<String> {
    texts.iter().map(|t| t.to_string()).collect()
}

#[test]
fn classify_compares_with_sixty() {
    assert_eq!(classify(0), Verdict::Failed);
    assert_eq!(classify(45), Verdict::Failed);
    assert_eq!(classify(59), Verdict::Failed);
    assert_eq!(classify(60), Verdict::Safe);
    assert_eq!(classify(61), Verdict::Good);
    assert_eq!(classify(75), Verdict::Good);
    assert_eq!(classify(u64::MAX), Verdict::Good);
}

#[test]
fn classify_agrees_with_the_order_of_numbers() {
    for s in 0u64..200 {
        let verdict = classify(s);
        assert_eq!(verdict == Verdict::Good, s > 60);
        assert_eq!(verdict == Verdict::Safe, s == 60);
        assert_eq!(verdict == Verdict::Failed, s < 60);
    }
}

#[test]
fn labels_are_the_reported_words() {
    assert_eq!(Verdict::Failed.label(), "Failed");
    assert_eq!(Verdict::Safe.label(), "Safe");
    assert_eq!(Verdict::Good.label(), "Good");
    assert_eq!(prompt(), "Enter score: ");
}

#[test]
fn parse_score_trims_and_reads_unsigned_numbers() {
    assert_eq!(parse_score("45\n"), Some(45));
    assert_eq!(parse_score("  60 \r\n"), Some(60));
    assert_eq!(parse_score("+7"), Some(7));
    assert_eq!(parse_score("007"), Some(7));
    assert_eq!(parse_score("18446744073709551615"), Some(u64::MAX));
    assert_eq!(parse_score("18446744073709551616"), None);
    assert_eq!(parse_score(""), None);
    assert_eq!(parse_score("\n"), None);
    assert_eq!(parse_score("-1"), None);
    assert_eq!(parse_score("4 5"), None);
    assert_eq!(parse_score("abc"), None);
    assert_eq!(parse_score("12.5"), None);
}

#[test]
fn execute_classifies_a_line() {
    assert_eq!(execute("45\n"), Some(Verdict::Failed));
    assert_eq!(execute("60\n"), Some(Verdict::Safe));
    assert_eq!(execute("75\n"), Some(Verdict::Good));
    assert_eq!(execute("seventy\n"), None);
}

#[test]
fn continues_only_while_looping_and_not_good() {
    assert!(continues(true, Verdict::Failed));
    assert!(continues(true, Verdict::Safe));
    assert!(!continues(true, Verdict::Good));
    assert!(!continues(false, Verdict::Failed));
    assert!(!continues(false, Verdict::Safe));
    assert!(!continues(false, Verdict::Good));
}

#[test]
fn single_attempt_reports_failed_and_stops() {
    let session = cmp_num(false, &lines(&["45\n"]));
    assert_eq!(session.verdicts, vec![Verdict::Failed]);
    assert!(session.completed);
}

#[test]
fn single_attempt_classifies_once_whatever_the_result() {
    for (text, verdict) in [("45", Verdict::Failed), ("60", Verdict::Safe), ("75", Verdict::Good)] {
        let session = cmp_num(false, &lines(&[text, "75", "10"]));
        assert_eq!(session.verdicts, vec![verdict]);
        assert!(session.completed);
    }
}

#[test]
fn looping_session_ends_after_the_first_good_score() {
    let session = cmp_num(true, &lines(&["50\n", "60\n", "75\n"]));
    assert_eq!(session.verdicts, vec![Verdict::Failed, Verdict::Safe, Verdict::Good]);
    assert!(session.completed);

    let longer = cmp_num(true, &lines(&["50\n", "60\n", "75\n", "10\n", "x\n"]));
    assert_eq!(longer.verdicts, vec![Verdict::Failed, Verdict::Safe, Verdict::Good]);
    assert!(longer.completed);
}

#[test]
fn session_stops_at_a_line_that_is_no_score() {
    let session = cmp_num(true, &lines(&["50\n", "sixty\n", "75\n"]));
    assert_eq!(session.verdicts, vec![Verdict::Failed]);
    assert!(!session.completed);

    let single = cmp_num(false, &lines(&["x"]));
    assert!(single.verdicts.is_empty());
    assert!(!single.completed);
}

#[test]
fn session_that_runs_out_of_input_is_not_completed() {
    let session = cmp_num(true, &lines(&["50\n", "60\n"]));
    assert_eq!(session.verdicts, vec![Verdict::Failed, Verdict::Safe]);
    assert!(!session.completed);

    let empty = cmp_num(false, &lines(&[]));
    assert!(empty.verdicts.is_empty());
    assert!(!empty.completed);
}
