//! Token accounting for chat messages: what a message costs, what asking
//! twice costs, and the lines that report it.

use vstd::prelude::*;
use vstd::string::{StrSliceExecFns, StringExecFns};
use crate::chars::{to_uppercase, uppercase_of};
use crate::decimal::{decimal, labelled};

verus! {

/// No token count is greater than this: twice the greatest length that a
/// text can have. It leaves room for the sums and products below.
pub const TOKEN_LIMIT: u128 = 36_893_488_147_419_103_230;

/// What one token of a conversation costs when it is asked for twice.
pub const CONVERSATION_RATE: u128 = 3;

/// Something whose use is measured in tokens.
pub trait Token {
    /// The number of tokens that this value accounts for.
    spec fn token_count(&self) -> nat;

    /// Computes the number of tokens.
    fn compute_tokens(&self) -> (tokens: u128)
        ensures
            tokens == self.token_count(),
            tokens <= TOKEN_LIMIT,
    ;

    /// The tokens that asking twice consumes: the sum of two computations.
    fn use_multi_trait_fns(&self) -> (tokens: u128)
        ensures
            tokens == 2 * self.token_count(),
    {
        let a = self.compute_tokens();
        let b = self.compute_tokens();
        a + b
    }
}

/// What two computations cost in one conversation: their sum at the
/// conversation rate.
pub fn conversation_tokens(a: u128, b: u128) -> (tokens: u128)
    requires
        a <= TOKEN_LIMIT,
        b <= TOKEN_LIMIT,
    ensures
        tokens == CONVERSATION_RATE * (a + b),
{
    (1 + 2) * 2 / 2 * (a + b)
}

/// Something whose use within one conversation is measured in tokens.
pub trait ConversationToken: Token {
    /// The tokens that asking twice in one conversation consumes: the sum
    /// of two computations, at the conversation rate.
    fn compute_conversation_tokens(&self) -> (tokens: u128)
        ensures
            tokens == CONVERSATION_RATE * (2 * self.token_count()),
    {
        let a = self.compute_tokens();
        let b = self.compute_tokens();
        conversation_tokens(a, b)
    }

    /// The tokens that asking twice in one conversation consumes with the
    /// lite model: half of the combined count.
    fn compute_conversation_tokens_with_lite_model(&self) -> (tokens: u128)
        ensures
            tokens == 2 * self.token_count() / 2,
    ;
}

/// A message of a chat: who speaks, what is said, and the last answer that
/// was given to it, if any.
#[derive(Debug)]
pub struct ChatCompletionMessage {
    /// Who speaks.
    pub role: String,
    /// What is said.
    pub content: String,
    /// The last answer given, if any.
    pub last_response: Option<String>,
}

/// The line that shows a message: the role, a colon, the content.
pub open spec fn input_line_of(role: Seq<char>, content: Seq<char>) -> Seq<char> {
    role + ": "@ + content
}

/// The answer given to a message.
pub open spec fn response_of(role: Seq<char>, content: Seq<char>) -> Seq<char> {
    role + " seems to wanna know "@ + content + ". There are some advices..."@
}

/// The length of the answer stored with a message; zero where there is
/// none.
pub open spec fn response_length(last_response: Option<String>) -> nat {
    match last_response {
        Some(response) => response@.len(),
        None => 0,
    }
}

/// The line that shows a message with the given role and content.
pub fn input_line(role: &str, content: &str) -> (line: String)
    ensures
        line@ == input_line_of(role@, content@),
{
    let mut line = String::from_str(role);
    line.append(": ");
    line.append(content);
    line
}

/// The answer given to a message with the given role and content.
pub fn response_to(role: &str, content: &str) -> (response: String)
    ensures
        response@ == response_of(role@, content@),
{
    let mut response = String::from_str(role);
    response.append(" seems to wanna know ");
    response.append(content);
    response.append(". There are some advices...");
    response
}

impl ChatCompletionMessage {
    /// Puts the role in upper case and gives the line that shows the
    /// message.
    pub fn show_input_tokens(&mut self) -> (line: String)
        ensures
            final(self).role@ == uppercase_of(old(self).role@),
            final(self).content@ == old(self).content@,
            final(self).last_response == old(self).last_response,
            line@ == input_line_of(uppercase_of(old(self).role@), old(self).content@),
    {
        self.role = to_uppercase(self.role.as_str());
        input_line(self.role.as_str(), self.content.as_str())
    }

    /// Answers the message, stores the answer with it and gives the answer.
    pub fn show_response(&mut self) -> (response: String)
        ensures
            response@ == response_of(old(self).role@, old(self).content@),
            final(self).last_response matches Some(stored) && stored@ == response@,
            final(self).role@ == old(self).role@,
            final(self).content@ == old(self).content@,
    {
        let response = response_to(self.role.as_str(), self.content.as_str());
        self.last_response = Some(response.clone());
        response
    }
}

impl Token for ChatCompletionMessage {
    /// The characters of the content and of the stored answer.
    open spec fn token_count(&self) -> nat {
        self.content@.len() + response_length(self.last_response)
    }

    fn compute_tokens(&self) -> (tokens: u128) {
        let input_tokens: u128 = self.content.as_str().unicode_len() as u128;
        let output_tokens: u128 = match &self.last_response {
            Some(response) => response.as_str().unicode_len() as u128,
            None => 0,
        };
        input_tokens + output_tokens
    }
}

impl ConversationToken for ChatCompletionMessage {
    fn compute_conversation_tokens_with_lite_model(&self) -> (tokens: u128) {
        let tokens = self.compute_tokens();
        tokens * 2 / 2
    }
}

/// Counts a conversation through a handle that hides the type behind it.
pub fn dynamic_dispatch(conversation_token: &dyn Token) -> (tokens: u128)
    ensures
        tokens == CONVERSATION_RATE * (2 * conversation_token.token_count()),
{
    let a = conversation_token.compute_tokens();
    let b = conversation_token.compute_tokens();
    conversation_tokens(a, b)
}

/// Counts a conversation twice, once with the type known and once through
/// a handle: the two counts are the same.
pub fn count_both_ways(message: &ChatCompletionMessage) -> (counts: (u128, u128))
    ensures
        counts.0 == counts.1,
        counts.0 == CONVERSATION_RATE * (2 * message.token_count()),
{
    (message.compute_conversation_tokens(), dynamic_dispatch(message))
}

/// Counts with the type known where the call is made.
pub fn generic_compute_tokens<T>(chat: &T) -> (tokens: u128) where T: Token
    ensures
        tokens == chat.token_count(),
{
    chat.compute_tokens()
}

/// Counts with the type known where the call is made.
pub fn generic_compute_tokens_shorthand<T: Token>(chat: &T) -> (tokens: u128)
    ensures
        tokens == chat.token_count(),
{
    chat.compute_tokens()
}

/// Counts with the type known where the call is made.
pub fn generic_compute_tokens_shorthand_2(chat: &impl Token) -> (tokens: u128)
    ensures
        tokens == chat.token_count(),
{
    chat.compute_tokens()
}

/// The applications that one user has, each measured in tokens.
pub struct LLMEcosystem {
    /// The applications.
    pub types: Vec<Box<dyn Token>>,
}

impl LLMEcosystem {
    /// The token count of every application, in order.
    pub fn compute_all(&self) -> (tokens: Vec<u128>)
        ensures
            tokens.len() == self.types.len(),
            forall|i: int|
                0 <= i < self.types.len() ==> (#[trigger] tokens[i]) == self.types[i].token_count(),
    {
        let mut tokens: Vec<u128> = Vec::new();
        let mut i: usize = 0;
        while i < self.types.len()
            invariant
                i <= self.types.len(),
                tokens.len() == i,
                forall|j: int|
                    0 <= j < i ==> (#[trigger] tokens[j]) == self.types[j].token_count(),
            decreases self.types.len() - i,
        {
            tokens.push(self.types[i].compute_tokens());
            i += 1;
        }
        tokens
    }
}

/// The lines that report on a message with the given role and content,
/// once it has been shown and answered: the message, the answer, and what
/// it costs, counted in each way that there is.
pub open spec fn report_of(role: Seq<char>, content: Seq<char>) -> Seq<Seq<char>> {
    let response = response_of(role, content);
    let count = content.len() + response.len();
    let conversation = CONVERSATION_RATE * (2 * count);
    seq![
        input_line_of(role, content),
        response,
        "Total comsumed tokens in this conversation: "@ + decimal(count),
        "If you ask 2 times, you will consume "@ + decimal(2 * count) + " tokens"@,
        "If you ask 2 times in same conversation, you will consume "@ + decimal(
            conversation as nat,
        ) + " tokens"@,
        "If you ask 2 times in same conversation with lite model, you will consume "@ + decimal(
            count,
        ) + " tokens"@,
        "[Dynamic dispatch mode] If you ask 2 times in same conversation, you will consume "@
            + decimal(conversation as nat) + " tokens"@,
        "[Generic mode]: "@ + decimal(count),
        "[Generic mode]: "@ + decimal(count),
        "[Generic shorthand] :"@ + decimal(count),
        "[Generic shorthand 2]: "@ + decimal(count),
    ]
}

/// The line that reports on the application at place `index`.
pub open spec fn box_line_of(index: nat, tokens: nat) -> Seq<char> {
    "[Box pointer]"@ + decimal(index) + ": "@ + decimal(tokens)
}

/// Shows and answers `message`, then counts its tokens in each way that
/// there is, and gives the lines that report it. The role of the message is
/// left in upper case and the answer is stored with it.
pub fn report(message: &mut ChatCompletionMessage) -> (lines: Vec<String>)
    ensures
        lines.deep_view() == report_of(uppercase_of(old(message).role@), old(message).content@),
        final(message).role@ == uppercase_of(old(message).role@),
        final(message).content@ == old(message).content@,
        final(message).last_response matches Some(stored) && stored@ == response_of(
            uppercase_of(old(message).role@),
            old(message).content@,
        ),
{
    let mut lines: Vec<String> = Vec::new();
    lines.push(message.show_input_tokens());
    lines.push(message.show_response());
    lines.push(labelled("Total comsumed tokens in this conversation: ", message.compute_tokens(), ""));
    lines.push(
        labelled("If you ask 2 times, you will consume ", message.use_multi_trait_fns(), " tokens"),
    );
    lines.push(
        labelled(
            "If you ask 2 times in same conversation, you will consume ",
            message.compute_conversation_tokens(),
            " tokens",
        ),
    );
    lines.push(
        labelled(
            "If you ask 2 times in same conversation with lite model, you will consume ",
            message.compute_conversation_tokens_with_lite_model(),
            " tokens",
        ),
    );
    lines.push(
        labelled(
            "[Dynamic dispatch mode] If you ask 2 times in same conversation, you will consume ",
            dynamic_dispatch(message),
            " tokens",
        ),
    );
    lines.push(labelled("[Generic mode]: ", generic_compute_tokens(message), ""));
    lines.push(labelled("[Generic mode]: ", generic_compute_tokens(message), ""));
    lines.push(labelled("[Generic shorthand] :", generic_compute_tokens_shorthand(message), ""));
    lines.push(labelled("[Generic shorthand 2]: ", generic_compute_tokens_shorthand_2(message), ""));
    proof {
        reveal_strlit("");
        let expected = report_of(uppercase_of(old(message).role@), old(message).content@);
        assert(lines.deep_view().len() == expected.len());
        assert forall|i: int| 0 <= i < 11 implies lines.deep_view()[i] == expected[i] by {
            assert(lines.deep_view()[i] == lines[i]@);
        }
    }
    lines
}

impl LLMEcosystem {
    /// One line for every application, in order, with its place and its
    /// token count.
    pub fn report(&self) -> (lines: Vec<String>)
        ensures
            lines.len() == self.types.len(),
            forall|i: int|
                0 <= i < self.types.len() ==> (#[trigger] lines[i])@ == box_line_of(
                    i as nat,
                    self.types[i].token_count(),
                ),
    {
        let tokens = self.compute_all();
        let mut lines: Vec<String> = Vec::new();
        let mut i: usize = 0;
        while i < tokens.len()
            invariant
                i <= tokens.len() == self.types.len(),
                lines.len() == i,
                forall|j: int|
                    0 <= j < self.types.len() ==> (#[trigger] tokens[j])
                        == self.types[j].token_count(),
                forall|j: int|
                    0 <= j < i ==> (#[trigger] lines[j])@ == box_line_of(
                        j as nat,
                        self.types[j].token_count(),
                    ),
            decreases tokens.len() - i,
        {
            let mut line = labelled("[Box pointer]", i as u128, ": ");
            let count = labelled("", tokens[i], "");
            line.append(count.as_str());
            proof {
                reveal_strlit("");
                assert(line@ == box_line_of(i as nat, tokens[i as int] as nat));
            }
            lines.push(line);
            i += 1;
        }
        lines
    }
}

/// The message that the demonstration shows, answers and counts.
pub fn sample_message() -> (message: ChatCompletionMessage)
    ensures
        message.role@ == "devloper"@,
        message.content@ == "Explain OOP in Rust"@,
        message.last_response is None,
{
    ChatCompletionMessage {
        role: String::from_str("devloper"),
        content: String::from_str("Explain OOP in Rust"),
        last_response: None,
    }
}

/// The applications that the demonstration counts: two messages that have
/// not been answered, one on `Golang vs. Rust` and one on
/// `Rust Learning Map`.
pub fn sample_ecosystem() -> (ecosystem: LLMEcosystem)
    ensures
        ecosystem.types.len() == 2,
{
    let first: Box<dyn Token> = Box::new(
        ChatCompletionMessage {
            role: String::from_str("devloper"),
            content: String::from_str("Golang vs. Rust"),
            last_response: None,
        },
    );
    let second: Box<dyn Token> = Box::new(
        ChatCompletionMessage {
            role: String::from_str("devloper"),
            content: String::from_str("Rust Learning Map"),
            last_response: None,
        },
    );
    LLMEcosystem { types: vec![first, second] }
}

/// The lines of the demonstration: the report on the sample message, then
/// one line for each application of the sample ecosystem.
pub fn oop() -> (lines: Vec<String>)
    ensures
        lines.len() == 13,
        lines.deep_view().take(11) == report_of(
            uppercase_of("devloper"@),
            "Explain OOP in Rust"@,
        ),
        exists|tokens: nat| lines[11]@ == box_line_of(0, tokens),
        exists|tokens: nat| lines[12]@ == box_line_of(1, tokens),
{
    let mut message = sample_message();
    let mut lines = report(&mut message);
    let ghost first = lines.deep_view();
    let ecosystem = sample_ecosystem();
    let mut more = ecosystem.report();
    assert(more[0]@ == box_line_of(0, ecosystem.types[0].token_count()));
    assert(more[1]@ == box_line_of(1, ecosystem.types[1].token_count()));
    lines.append(&mut more);
    assert(lines.deep_view().take(11) == first);
    lines
}

} // verus!
