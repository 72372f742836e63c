//! The conversation log: an append-only transcript of dialogue turns, and
//! the request a completion gateway receives when the transcript is
//! materialized. Turn order is preserved exactly; turn zero is always the
//! NPC's scripted persona preamble.

use vstd::prelude::*;

verus! {

/// Who spoke a turn: the scripted persona preamble (`System`), the human
/// partner (`User`), or the agent itself (`Assistant`).
#[derive(Clone, Copy, PartialEq, Eq, Structural, Debug)]
pub enum Role {
    System,
    User,
    Assistant,
}

/// One turn of a conversation: who spoke, and what was said.
#[derive(Clone, PartialEq, Eq, Debug)]
pub struct Message {
    pub role: Role,
    pub content: String,
}

/// Mathematical model of a `Message`.
pub struct MessageView {
    pub role: Role,
    pub content: Seq<char>,
}

impl View for Message {
    type V = MessageView;

    open spec fn view(&self) -> MessageView {
        MessageView { role: self.role, content: self.content@ }
    }
}

/// A turn, as it appears in contracts.
pub open spec fn turn(role: Role, content: Seq<char>) -> MessageView {
    MessageView { role, content }
}

/// The NPC's scripted personality preamble, seeded as turn zero of every
/// fresh conversation and never removed.
pub open spec fn persona_text() -> Seq<char> {
    "You are Hamish the sentient skeleton, you're generally relatively grumpy and are short with people who try to interrupt your patrol. Keep your response terse"@
}

/// The persona preamble as a turn.
pub open spec fn persona_turn() -> MessageView {
    turn(Role::System, persona_text())
}

/// What `Conversation::new` produces: a transcript holding the persona
/// preamble alone.
pub open spec fn spec_new_conversation() -> Seq<MessageView> {
    seq![persona_turn()]
}

/// An owned, append-only, ordered transcript of dialogue turns. Created
/// fresh when a dialogue episode begins and discarded when the agent
/// returns to patrol.
#[derive(Clone, PartialEq, Eq, Debug)]
pub struct Conversation {
    pub messages: Vec<Message>,
}

impl View for Conversation {
    type V = Seq<MessageView>;

    open spec fn view(&self) -> Seq<MessageView> {
        self.messages@.map(|i: int, m: Message| m@)
    }
}

/// A completion request: the transcript's turns in their exact order.
/// The gateway pairs it with the submitting controller's correlation id.
#[derive(Clone, PartialEq, Eq, Debug)]
pub struct CompletionQuery {
    pub messages: Vec<Message>,
}

impl View for CompletionQuery {
    type V = Seq<MessageView>;

    open spec fn view(&self) -> Seq<MessageView> {
        self.messages@.map(|i: int, m: Message| m@)
    }
}

impl Conversation {
    /// Seeds the transcript with the fixed persona preamble as turn zero.
    pub fn new() -> (c: Conversation)
        ensures
            c@ == spec_new_conversation(),
    {
        let initiating_message = Message {
            role: Role::System,
            content: "You are Hamish the sentient skeleton, you're generally relatively grumpy and are short with people who try to interrupt your patrol. Keep your response terse".to_owned(),
        };
        let mut messages: Vec<Message> = Vec::new();
        messages.push(initiating_message);
        let c = Conversation { messages };
        proof {
            assert(c@ =~= spec_new_conversation());
        }
        c
    }

    fn input(&mut self, message: String, role: Role)
        ensures
            final(self)@ == old(self)@.push(turn(role, message@)),
    {
        let ghost content = message@;
        let new_message = Message { role, content: message };
        self.messages.push(new_message);
        proof {
            assert(self@ =~= old(self)@.push(turn(role, content)));
        }
    }

    /// Appends a turn spoken by the agent itself.
    pub fn input_from_self(&mut self, message: String)
        ensures
            final(self)@ == old(self)@.push(turn(Role::Assistant, message@)),
    {
        self.input(message, Role::Assistant);
    }

    /// Appends a turn spoken by the human partner.
    pub fn input_from_partner(&mut self, message: String)
        ensures
            final(self)@ == old(self)@.push(turn(Role::User, message@)),
    {
        self.input(message, Role::User);
    }

    /// A fresh copy of the transcript, turn for turn.
    pub fn duplicate(&self) -> (c: Conversation)
        ensures
            c@ == self@,
    {
        let mut messages: Vec<Message> = Vec::new();
        let mut i: usize = 0;
        while i < self.messages.len()
            invariant
                i <= self.messages.len(),
                messages@.len() == i as int,
                forall|j: int| 0 <= j < i as int ==> messages@[j]@ == self.messages@[j]@,
            decreases self.messages.len() - i,
        {
            let m = &self.messages[i];
            messages.push(Message { role: m.role, content: m.content.clone() });
            i += 1;
        }
        let c = Conversation { messages };
        proof {
            assert(c@ =~= self@);
        }
        c
    }

    /// Materializes the transcript into a completion request, preserving
    /// turn order exactly. No truncation is applied.
    pub fn to_request(&self) -> (q: CompletionQuery)
        ensures
            q@ == self@,
    {
        let q = CompletionQuery { messages: self.duplicate().messages };
        proof {
            assert(q@ =~= self@);
        }
        q
    }
}

impl Default for Conversation {
    fn default() -> (c: Conversation)
        ensures
            c@ == spec_new_conversation(),
    {
        Conversation::new()
    }
}

/// A fresh transcript that a completion gateway sees untouched holds the
/// persona preamble and nothing else.
pub proof fn lemma_fresh_request_is_persona_only(c: Conversation, q: CompletionQuery)
    requires
        c@ == spec_new_conversation(),
        q@ == c@,
    ensures
        q@.len() == 1,
        q@[0] == persona_turn(),
{
}

/// What can go wrong when talking to the completion gateway. Submission
/// failure is recoverable: the controller abandons the episode instead of
/// crashing.
#[derive(Debug)]
pub enum AiError {
    OpenAIError(String),
    SubmissionError(String),
}

impl AiError {
    /// The human-readable text carried by the error.
    pub fn message(&self) -> (m: &String)
        ensures
            self matches AiError::OpenAIError(s) ==> m == s,
            self matches AiError::SubmissionError(s) ==> m == s,
    {
        match self {
            AiError::OpenAIError(s) => s,
            AiError::SubmissionError(s) => s,
        }
    }
}

} // verus!
