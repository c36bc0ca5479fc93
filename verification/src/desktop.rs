//! Requests of the desktop wallet to its node.

use vstd::prelude::*;
use vstd::string::StringExecFns;

verus! {

/// The JSON body that carries a prompt: `{"prompt":"<prompt>"}`, with the prompt
/// inserted as it is.
pub open spec fn prompt_body_text(prompt: Seq<char>) -> Seq<char> {
    "{\"prompt\":\""@ + prompt + "\"}"@
}

/// The body of a prompt request.
pub fn prompt_body(prompt: &str) -> (body: String)
    ensures
        body@ == prompt_body_text(prompt@),
{
    "{\"prompt\":\"".to_owned().concat(prompt).concat("\"}")
}

} // verus!
