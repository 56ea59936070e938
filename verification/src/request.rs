//! The request builder: from the context and a new input to the prompt.

use crate::context::ChatContext;
use crate::text::{trim, trimmed};
use vstd::prelude::*;
use vstd::string::*;

verus! {

/// What goes out for one exchange. Its view is the prompt text.
#[derive(Clone, Debug, PartialEq, Eq)]
pub struct OutboundRequest {
    pub inputs: String,
}

impl View for OutboundRequest {
    type V = Seq<char>;

    open spec fn view(&self) -> Seq<char> {
        self.inputs@
    }
}

/// The prompt for `new_input` after `history`: the history as it stands, and
/// directly behind it the trimmed input.
pub open spec fn prompt_text(history: Seq<char>, new_input: Seq<char>) -> Seq<char> {
    history + trimmed(new_input)
}

/// Builds the request for `new_input` in the conversation held by `context`.
pub fn build(context: &ChatContext, new_input: &str) -> (r: OutboundRequest)
    ensures
        r@ == prompt_text(context@, new_input@),
{
    let mut inputs = context.render_for_request().to_owned();
    inputs.append(trim(new_input));
    OutboundRequest { inputs }
}

} // verus!
