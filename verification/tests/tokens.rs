use playground::tokens::{
    conversation_tokens, count_both_ways, dynamic_dispatch, generic_compute_tokens,
    generic_compute_tokens_shorthand, generic_compute_tokens_shorthand_2, input_line, oop,
    report, response_to, sample_ecosystem, sample_message, ChatCompletionMessage,
    ConversationToken, LLMEcosystem, Token, CONVERSATION_RATE, TOKEN_LIMIT,
};

fn message(role: &str, content: &str, last_response: Option<&str>) -> ChatCompletionMessage {
    ChatCompletionMessage {
        role: role.to_string(),
        content: content.to_string(),
        last_response: last_response.map(|r| r.to_string()),
    }
}

#[test]
fn tokens_are_the_characters_of_content_and_answer() {
    assert_eq!(message("user", "", None).compute_tokens(), 0);
    assert_eq!(message("user", "Explain OOP in Rust", None).compute_tokens(), 19);
    assert_eq!(message("user", "abc", Some("defgh")).compute_tokens(), 8);
    assert_eq!(message("user", "", Some("defgh")).compute_tokens(), 5);
    assert_eq!(message("a longer role", "abc", None).compute_tokens(), 3);
}

#[test]
fn tokens_count_characters_and_not_bytes() {
    assert_eq!(message("user", "h\u{e9}llo", None).compute_tokens(), 5);
    assert_eq!(message("user", "\u{1f980}", Some("\u{1f980}\u{1f980}")).compute_tokens(), 3);
}

#[test]
fn composed_counts() {
    let chat = message("user", "abc", Some("defgh"));
    assert_eq!(chat.use_multi_trait_fns(), 16);
    assert_eq!(chat.compute_conversation_tokens(), 48);
    assert_eq!(chat.compute_conversation_tokens_with_lite_model(), 8);
    assert_eq!(CONVERSATION_RATE, 3);
    assert_eq!(conversation_tokens(8, 8), 48);
    assert_eq!(conversation_tokens(0, 0), 0);
    assert_eq!(conversation_tokens(1, 2), 9);
    assert_eq!(
        conversation_tokens(TOKEN_LIMIT, TOKEN_LIMIT),
        6 * 36_893_488_147_419_103_230u128
    );
}

#[test]
fn static_and_dynamic_dispatch_agree() {
    for (content, response) in [("", None), ("abc", None), ("abc", Some("defgh")), ("\u{e9}", Some("x"))] {
        let chat = message("user", content, response);
        let tokens = chat.compute_tokens();
        assert_eq!(generic_compute_tokens(&chat), tokens);
        assert_eq!(generic_compute_tokens_shorthand(&chat), tokens);
        assert_eq!(generic_compute_tokens_shorthand_2(&chat), tokens);
        assert_eq!(dynamic_dispatch(&chat), chat.compute_conversation_tokens());
        assert_eq!(dynamic_dispatch(&chat), 3 * 2 * tokens);
        assert_eq!(count_both_ways(&chat), (6 * tokens, 6 * tokens));
        let boxed: Box<dyn Token> = Box::new(message("user", content, response));
        assert_eq!(boxed.compute_tokens(), tokens);
    }
}

#[test]
fn showing_a_message_puts_its_role_in_upper_case() {
    let mut chat = message("devloper", "Explain OOP in Rust", None);
    assert_eq!(chat.show_input_tokens(), "DEVLOPER: Explain OOP in Rust");
    assert_eq!(chat.role, "DEVLOPER");
    assert_eq!(chat.content, "Explain OOP in Rust");
    assert_eq!(chat.last_response, None);

    let mut other = message("stra\u{df}e", "x", Some("kept"));
    assert_eq!(other.show_input_tokens(), "STRASSE: x");
    assert_eq!(other.role, "STRASSE");
    assert_eq!(other.last_response.as_deref(), Some("kept"));
}

#[test]
fn answering_a_message_stores_the_answer() {
    let mut chat = message("DEVLOPER", "Explain OOP in Rust", None);
    let response = chat.show_response();
    assert_eq!(
        response,
        "DEVLOPER seems to wanna know Explain OOP in Rust. There are some advices..."
    );
    assert_eq!(chat.last_response.as_deref(), Some(response.as_str()));
    assert_eq!(chat.role, "DEVLOPER");
    assert_eq!(chat.content, "Explain OOP in Rust");
    assert_eq!(chat.compute_tokens(), 94);
}

#[test]
fn lines_for_given_role_and_content() {
    assert_eq!(input_line("ROLE", "content"), "ROLE: content");
    assert_eq!(input_line("", ""), ": ");
    assert_eq!(response_to("R", "c"), "R seems to wanna know c. There are some advices...");
}

#[test]
fn report_on_a_message() {
    let mut chat = message("me", "hi", Some("old answer"));
    let lines = report(&mut chat);
    assert_eq!(
        lines,
        vec![
            "ME: hi",
            "ME seems to wanna know hi. There are some advices...",
            "Total comsumed tokens in this conversation: 54",
            "If you ask 2 times, you will consume 108 tokens",
            "If you ask 2 times in same conversation, you will consume 324 tokens",
            "If you ask 2 times in same conversation with lite model, you will consume 54 tokens",
            "[Dynamic dispatch mode] If you ask 2 times in same conversation, you will consume 324 tokens",
            "[Generic mode]: 54",
            "[Generic mode]: 54",
            "[Generic shorthand] :54",
            "[Generic shorthand 2]: 54",
        ]
    );
    assert_eq!(chat.role, "ME");
    assert_eq!(chat.content, "hi");
    assert_eq!(
        chat.last_response.as_deref(),
        Some("ME seems to wanna know hi. There are some advices...")
    );
}

#[test]
fn ecosystem_counts_every_application() {
    let ecosystem = LLMEcosystem {
        types: vec![
            Box::new(message("a", "Golang vs. Rust", None)),
            Box::new(message("b", "Rust Learning Map", Some("xy"))),
            Box::new(message("c", "", None)),
        ],
    };
    assert_eq!(ecosystem.compute_all(), vec![15, 19, 0]);
    assert_eq!(
        ecosystem.report(),
        vec!["[Box pointer]0: 15", "[Box pointer]1: 19", "[Box pointer]2: 0"]
    );
    let empty = LLMEcosystem { types: Vec::new() };
    assert!(empty.compute_all().is_empty());
    assert!(empty.report().is_empty());
}

#[test]
fn samples_of_the_demonstration() {
    let sample = sample_message();
    assert_eq!(sample.role, "devloper");
    assert_eq!(sample.content, "Explain OOP in Rust");
    assert_eq!(sample.last_response, None);
    let ecosystem = sample_ecosystem();
    assert_eq!(ecosystem.compute_all(), vec![15, 17]);
}

#[test]
fn the_demonstration_line_by_line() {
    assert_eq!(
        oop(),
        vec![
            "DEVLOPER: Explain OOP in Rust",
            "DEVLOPER seems to wanna know Explain OOP in Rust. There are some advices...",
            "Total comsumed tokens in this conversation: 94",
            "If you ask 2 times, you will consume 188 tokens",
            "If you ask 2 times in same conversation, you will consume 564 tokens",
            "If you ask 2 times in same conversation with lite model, you will consume 94 tokens",
            "[Dynamic dispatch mode] If you ask 2 times in same conversation, you will consume 564 tokens",
            "[Generic mode]: 94",
            "[Generic mode]: 94",
            "[Generic shorthand] :94",
            "[Generic shorthand 2]: 94",
            "[Box pointer]0: 15",
            "[Box pointer]1: 17",
        ]
    );
}
