use npc_mind::generator::{AiError, Conversation, Role};

const PERSONA: &str = "You are Hamish the sentient skeleton, you're generally relatively grumpy and are short with people who try to interrupt your patrol. Keep your response terse";

#[test]
fn fresh_conversation_requests_persona_only() {
    // A fresh transcript with zero turns recorded materializes into a
    // request whose only turn is the persona preamble.
    let conversation = Conversation::new();
    let request = conversation.to_request();
    assert_eq!(request.messages.len(), 1);
    assert_eq!(request.messages[0].role, Role::System);
    assert_eq!(request.messages[0].content, PERSONA);
}

#[test]
fn turn_order_is_preserved() {
    let mut conversation = Conversation::new();
    conversation.input_from_partner("Who goes there?".to_string());
    conversation.input_from_self("None of your business.".to_string());
    conversation.input_from_partner("Rude.".to_string());

    let request = conversation.to_request();
    assert_eq!(request.messages.len(), 4);
    assert_eq!(request.messages[0].role, Role::System);
    assert_eq!(request.messages[1].role, Role::User);
    assert_eq!(request.messages[1].content, "Who goes there?");
    assert_eq!(request.messages[2].role, Role::Assistant);
    assert_eq!(request.messages[2].content, "None of your business.");
    assert_eq!(request.messages[3].role, Role::User);
    assert_eq!(request.messages[3].content, "Rude.");
}

#[test]
fn duplicate_copies_every_turn() {
    let mut conversation = Conversation::new();
    conversation.input_from_partner("hello".to_string());
    let copy = conversation.duplicate();
    assert_eq!(copy, conversation);
}

#[test]
fn default_conversation_equals_a_fresh_one() {
    assert_eq!(Conversation::default(), Conversation::new());
}

#[test]
fn error_messages_carry_their_text() {
    let gateway = AiError::OpenAIError("no choices returned".to_string());
    assert_eq!(gateway.message(), &"no choices returned".to_string());
    let submission = AiError::SubmissionError("channel closed".to_string());
    assert_eq!(submission.message(), &"channel closed".to_string());
}
