//! Classification of scores against the pass mark, one at a time or as a
//! session that goes on until a score passes.

use vstd::prelude::*;
use crate::chars::{trim, trimmed};
use crate::decimal::{parse_u64, parsed_u64};

verus! {

/// The mark a score is compared with.
pub const PASS_MARK: u64 = 60;

/// The three outcomes of comparing a score with the pass mark.
#[derive(Clone, Copy, Debug, PartialEq, Eq, Structural)]
pub enum Verdict {
    /// The score is below the pass mark.
    Failed,
    /// The score is exactly the pass mark.
    Safe,
    /// The score is above the pass mark.
    Good,
}

/// The verdict that belongs to a score.
pub open spec fn verdict_of(score: int) -> Verdict {
    if score < PASS_MARK {
        Verdict::Failed
    } else if score > PASS_MARK {
        Verdict::Good
    } else {
        Verdict::Safe
    }
}

/// The word that reports a verdict.
pub open spec fn label_of(verdict: Verdict) -> Seq<char> {
    match verdict {
        Verdict::Failed => "Failed"@,
        Verdict::Safe => "Safe"@,
        Verdict::Good => "Good"@,
    }
}

/// The score that a line of input stands for: the line without the white
/// space around it, read as an unsigned number.
pub open spec fn score_of(line: Seq<char>) -> Option<u64> {
    parsed_u64(trimmed(line))
}

/// Whether another score is asked for after `verdict`: only in a looping
/// session, and only while the score has not passed.
pub open spec fn asks_again(looping: bool, verdict: Verdict) -> bool {
    looping && verdict != Verdict::Good
}

/// Compares `score` with the pass mark.
pub fn classify(score: u64) -> (verdict: Verdict)
    ensures
        verdict == verdict_of(score as int),
        verdict == Verdict::Good <==> score > 60,
        verdict == Verdict::Safe <==> score == 60,
        verdict == Verdict::Failed <==> score < 60,
{
    if score < PASS_MARK {
        Verdict::Failed
    } else if score > PASS_MARK {
        Verdict::Good
    } else {
        Verdict::Safe
    }
}

impl Verdict {
    /// The word that reports this verdict.
    pub fn label(self) -> (word: &'static str)
        ensures
            word@ == label_of(self),
    {
        match self {
            Verdict::Failed => "Failed",
            Verdict::Safe => "Safe",
            Verdict::Good => "Good",
        }
    }
}

/// The text that asks for a score.
pub fn prompt() -> (text: &'static str)
    ensures
        text@ == "Enter score: "@,
{
    "Enter score: "
}

/// Reads a line of input as a score. `None` where the line, trimmed, is not
/// an unsigned number that fits 64 bits.
pub fn parse_score(line: &str) -> (score: Option<u64>)
    ensures
        score == score_of(line@),
{
    let text = trim(line);
    parse_u64(text.as_str())
}

/// One attempt: reads `line` as a score and classifies it. `None` where the
/// line is no score.
pub fn execute(line: &str) -> (verdict: Option<Verdict>)
    ensures
        verdict == match score_of(line@) {
            Some(score) => Some(verdict_of(score as int)),
            None => None,
        },
{
    match parse_score(line) {
        Some(score) => Some(classify(score)),
        None => None,
    }
}

/// Decides whether a session asks for another score after `verdict`.
pub fn continues(looping: bool, verdict: Verdict) -> (again: bool)
    ensures
        again == asks_again(looping, verdict),
        !looping ==> !again,
{
    looping && verdict != Verdict::Good
}

/// What a session leaves behind: the verdicts in the order they were
/// reported, and whether the session came to its end. A session that met a
/// line that is no score, or ran out of lines, did not.
#[derive(Debug)]
pub struct Session {
    /// The verdicts reported, first to last.
    pub verdicts: Vec<Verdict>,
    /// Whether the session ended by itself.
    pub completed: bool,
}

/// The session that a sequence of input lines gives. Each line is read as a
/// score and classified. A session that is not looping ends after the first
/// verdict; a looping one ends after the first `Good`. A line that is no
/// score stops the session at once, and so does the end of the input.
pub open spec fn session_of(looping: bool, lines: Seq<Seq<char>>) -> (Seq<Verdict>, bool)
    decreases lines.len(),
{
    if lines.len() == 0 {
        (Seq::empty(), false)
    } else {
        match score_of(lines[0]) {
            None => (Seq::empty(), false),
            Some(score) => {
                let verdict = verdict_of(score as int);
                if asks_again(looping, verdict) {
                    let rest = session_of(looping, lines.skip(1));
                    (seq![verdict] + rest.0, rest.1)
                } else {
                    (seq![verdict], true)
                }
            },
        }
    }
}

/// The lines from position `from` on.
spec fn lines_from(lines: Seq<Seq<char>>, from: usize) -> Seq<Seq<char>> {
    lines.skip(from as int)
}

/// A looping session that came to its end reported `Good` last and never
/// before.
pub proof fn lemma_looping_session_ends_good(lines: Seq<Seq<char>>)
    requires
        session_of(true, lines).1,
    ensures
        session_of(true, lines).0.len() > 0,
        session_of(true, lines).0.last() == Verdict::Good,
        forall|i: int|
            0 <= i < session_of(true, lines).0.len() - 1 ==> session_of(true, lines).0[i]
                != Verdict::Good,
    decreases lines.len(),
{
    if lines.len() > 0 {
        match score_of(lines[0]) {
            None => {},
            Some(score) => {
                let verdict = verdict_of(score as int);
                if asks_again(true, verdict) {
                    lemma_looping_session_ends_good(lines.skip(1));
                }
            },
        }
    }
}

/// A session that is not looping classifies exactly once where its first
/// line is a score, whatever the verdict is, and reads no further.
pub proof fn lemma_single_attempt(lines: Seq<Seq<char>>)
    requires
        lines.len() > 0,
        score_of(lines[0]) is Some,
    ensures
        session_of(false, lines) == (seq![verdict_of(score_of(lines[0]).unwrap() as int)], true),
{
}

/// Replays a session over recorded input lines.
pub fn cmp_num(looping: bool, lines: &Vec<String>) -> (session: Session)
    ensures
        (session.verdicts@, session.completed) == session_of(looping, lines.deep_view()),
        !looping ==> session.verdicts@.len() <= 1,
        !looping && lines.len() > 0 && score_of(lines[0]@) is Some ==> session.completed
            && session.verdicts@.len() == 1,
{
    let ghost all = lines.deep_view();
    let mut verdicts: Vec<Verdict> = Vec::new();
    let mut i: usize = 0;
    assert(lines_from(all, 0) == all);
    while i < lines.len()
        invariant
            i <= lines.len(),
            all == lines.deep_view(),
            session_of(looping, all).0 == verdicts@ + session_of(looping, lines_from(all, i)).0,
            session_of(looping, all).1 == session_of(looping, lines_from(all, i)).1,
            !looping ==> i == 0 && verdicts@.len() == 0,
        decreases lines.len() - i,
    {
        let ghost rest = lines_from(all, i);
        assert(rest.len() > 0 && rest[0] == lines[i + 0]@);
        assert(rest.skip(1) == all.skip(i + 1));
        match execute(lines[i].as_str()) {
            None => {
                return Session { verdicts, completed: false };
            },
            Some(verdict) => {
                verdicts.push(verdict);
                if !continues(looping, verdict) {
                    return Session { verdicts, completed: true };
                }
            },
        }
        i += 1;
    }
    assert(lines_from(all, i).len() == 0);
    Session { verdicts, completed: false }
}

} // verus!
