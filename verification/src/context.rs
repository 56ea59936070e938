//! The context buffer: the text of every completed turn, in arrival order.

use crate::text::{trim, trimmed};
use vstd::prelude::*;
use vstd::string::*;

verus! {

/// One completed exchange: what the user typed and what the generator
/// answered.
pub struct Turn {
    pub input: Seq<char>,
    pub response: Seq<char>,
}

/// The text that one turn adds to the context: both halves trimmed, each
/// behind its label, and a blank line after them.
pub open spec fn turn_block(input: Seq<char>, response: Seq<char>) -> Seq<char> {
    "User Input: "@ + trimmed(input) + "\nBot Response: "@ + trimmed(response) + "\n\n"@
}

/// The blocks of `turns`, one after the other, first turn first.
pub open spec fn transcript_of(turns: Seq<Turn>) -> Seq<char>
    decreases turns.len(),
{
    if turns.len() == 0 {
        Seq::empty()
    } else {
        turn_block(turns.first().input, turns.first().response) + transcript_of(
            turns.drop_first(),
        )
    }
}

/// The running context of a conversation. Its view is the text it holds.
pub struct ChatContext {
    chat_history: String,
}

impl View for ChatContext {
    type V = Seq<char>;

    closed spec fn view(&self) -> Seq<char> {
        self.chat_history@
    }
}

impl ChatContext {
    /// A context that holds no turn.
    pub fn new() -> (r: ChatContext)
        ensures
            r@ == Seq::<char>::empty(),
    {
        ChatContext { chat_history: String::new() }
    }

    /// Adds one completed turn behind those already held.
    pub fn add_to_history(&mut self, user_input: &str, generated_response: &str)
        ensures
            final(self)@ == old(self)@ + turn_block(user_input@, generated_response@),
    {
        self.chat_history.append("User Input: ");
        self.chat_history.append(trim(user_input));
        self.chat_history.append("\nBot Response: ");
        self.chat_history.append(trim(generated_response));
        self.chat_history.append("\n\n");
        assert(self.chat_history@ =~= old(self).chat_history@ + turn_block(
            user_input@,
            generated_response@,
        ));
    }

    /// The whole text held, as it goes in front of the next prompt and into
    /// the saved transcript. The context is left as it is.
    pub fn render_for_request(&self) -> (r: &str)
        ensures
            r@ == self@,
    {
        self.chat_history.as_str()
    }

    /// Whether no turn is held.
    pub fn is_empty(&self) -> (r: bool)
        ensures
            r == (self@.len() == 0),
    {
        self.chat_history.as_str().is_empty()
    }

    /// Forgets every turn.
    pub fn clear_history(&mut self)
        ensures
            final(self)@ == Seq::<char>::empty(),
    {
        self.chat_history = String::new();
    }
}

impl Default for ChatContext {
    fn default() -> (r: ChatContext)
        ensures
            r@ == Seq::<char>::empty(),
    {
        ChatContext::new()
    }
}

/// Adding a turn at the end of a conversation adds its block at the end of
/// the transcript.
pub proof fn lemma_transcript_push(turns: Seq<Turn>, turn: Turn)
    ensures
        transcript_of(turns.push(turn)) == transcript_of(turns) + turn_block(
            turn.input,
            turn.response,
        ),
    decreases turns.len(),
{
    let longer = turns.push(turn);
    if turns.len() == 0 {
        assert(longer.drop_first() =~= Seq::<Turn>::empty());
        assert(transcript_of(longer.drop_first()) =~= Seq::<char>::empty());
        assert(transcript_of(longer) =~= transcript_of(turns) + turn_block(
            turn.input,
            turn.response,
        ));
    } else {
        assert(longer.drop_first() =~= turns.drop_first().push(turn));
        lemma_transcript_push(turns.drop_first(), turn);
        assert(transcript_of(longer) =~= transcript_of(turns) + turn_block(
            turn.input,
            turn.response,
        ));
    }
}

} // verus!
