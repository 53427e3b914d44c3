//! The request sent to the text-generation service.
use vstd::prelude::*;

verus! {

/// Where requests for a commit message are sent.
pub const API_URL: &'static str = "https://api.anthropic.com/v1/messages";

/// The protocol version that requests declare.
pub const API_VERSION: &'static str = "2023-06-01";

/// The most output tokens the service may spend on the reply.
pub const MAX_TOKENS: u32 = 1000;

/// The role of the one message of a request.
pub const USER_ROLE: &'static str = "user";

/// The fixed instruction that sets the rules of the commit message.
pub const SYSTEM_INSTRUCTION: &'static str = "Generate git commit messages from diffs. Guidelines:\n\
1. Start with imperative verb (Add, Fix, Update, etc.)\n\
2. Format as a concise title line (under 50 characters)\n\
3. Follow with a blank line\n\
4. Then include a bulleted list with each bullet using '-' format\n\
5. Each bullet should describe a specific change made\n\
6. Focus on technical changes, not why they're beneficial\n\
7. Don't include a '## Changes' section\n\
8. Return only the formatted commit message with no commentary\n\
9. The title line should never be prefixed with #";

/// The text that precedes the diff in the user message; it opens a fenced block.
pub const PROMPT_HEAD: &'static str = "Generate a commit message for the following git diff:\n\n```\n";

/// The text that follows the diff in the user message; it closes the fenced block.
pub const PROMPT_TAIL: &'static str = "\n```";

/// One message of a conversation with the service.
pub struct Message {
    pub role: String,
    pub content: String,
}

/// A request to the service: one user message under a system instruction.
pub struct ChatRequest {
    pub model: String,
    pub max_tokens: u32,
    pub system: String,
    pub messages: Vec<Message>,
}

/// The user message for a diff: the diff, unchanged, inside a fenced block.
pub open spec fn user_content(diff: Seq<char>) -> Seq<char> {
    PROMPT_HEAD@ + diff + PROMPT_TAIL@
}

/// The request that a diff gives rise to, addressed to a model.
pub open spec fn is_request_for(r: ChatRequest, model: Seq<char>, diff: Seq<char>) -> bool {
    &&& r.model@ == model
    &&& r.max_tokens == MAX_TOKENS
    &&& r.system@ == SYSTEM_INSTRUCTION@
    &&& r.messages@.len() == 1
    &&& r.messages@[0].role@ == USER_ROLE@
    &&& r.messages@[0].content@ == user_content(diff)
}

/// Wraps a diff into the user message.
pub fn user_prompt(diff: &str) -> (r: String)
    ensures
        r@ == user_content(diff@),
        r@.subrange(PROMPT_HEAD@.len() as int, (PROMPT_HEAD@.len() + diff@.len()) as int) == diff@,
{
    let mut s = String::from_str(PROMPT_HEAD);
    s.append(diff);
    s.append(PROMPT_TAIL);
    assert(s@.subrange(PROMPT_HEAD@.len() as int, (PROMPT_HEAD@.len() + diff@.len()) as int) =~= diff@);
    s
}

/// Builds the request that asks a model for a commit message for a diff.
pub fn build_request(model: &str, diff: &str) -> (r: ChatRequest)
    ensures
        is_request_for(r, model@, diff@),
        r.messages@[0].content@.subrange(
            PROMPT_HEAD@.len() as int,
            (PROMPT_HEAD@.len() + diff@.len()) as int,
        ) == diff@,
{
    let message = Message { role: String::from_str(USER_ROLE), content: user_prompt(diff) };
    let mut messages: Vec<Message> = Vec::new();
    messages.push(message);
    ChatRequest {
        model: String::from_str(model),
        max_tokens: MAX_TOKENS,
        system: String::from_str(SYSTEM_INSTRUCTION),
        messages,
    }
}

} // verus!
