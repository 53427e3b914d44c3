//! Reading the reply of the text-generation service.
use vstd::prelude::*;
use crate::text::{trim_text, trimmed};

verus! {

/// One block of the reply's content.
pub struct ContentBlock {
    pub text: String,
    pub kind: String,
}

/// The reply of the service: its content blocks in order.
pub struct ChatResponse {
    pub content: Vec<ContentBlock>,
}

/// Why no commit message could be had from the service.
pub enum GenError {
    /// The service answered with a status other than success; `body` is its reply.
    Api { body: String },
    /// The service answered with success but sent no content block.
    NoContent,
    /// The request did not complete.
    Transport { detail: String },
    /// The reply could not be read as a response.
    Malformed { detail: String },
}

/// The message that describes a failure to get a commit message.
pub open spec fn gen_error_text(e: GenError) -> Seq<char> {
    match e {
        GenError::Api { body } => "API request failed: "@ + body@,
        GenError::NoContent => "No content received from the API"@,
        GenError::Transport { detail } => "Request to the API failed: "@ + detail@,
        GenError::Malformed { detail } => "Unreadable reply from the API: "@ + detail@,
    }
}

impl GenError {
    /// The message shown to the user for this failure; for a failed status it
    /// holds the service's reply verbatim.
    pub fn describe(&self) -> (r: String)
        ensures
            r@ == gen_error_text(*self),
    {
        match self {
            GenError::Api { body } => {
                let mut s = String::from_str("API request failed: ");
                s.append(body.as_str());
                s
            },
            GenError::NoContent => String::from_str("No content received from the API"),
            GenError::Transport { detail } => {
                let mut s = String::from_str("Request to the API failed: ");
                s.append(detail.as_str());
                s
            },
            GenError::Malformed { detail } => {
                let mut s = String::from_str("Unreadable reply from the API: ");
                s.append(detail.as_str());
                s
            },
        }
    }
}

/// Whether an HTTP status code is a success, that is in 200 to 299.
pub open spec fn is_success_status(status: u16) -> bool {
    200 <= status && status < 300
}

/// Relies on `StatusCode::from_u16`, which refuses codes under 100 and from
/// 1000 on, and on `StatusCode::is_success`, which holds of 200 to 299.
#[verifier::external_body]
fn status_code_is_success(status: u16) -> (r: bool)
    ensures
        r == is_success_status(status),
{
    match reqwest::StatusCode::from_u16(status) {
        Ok(code) => code.is_success(),
        Err(_) => false,
    }
}

/// What the service's answer comes to when its status is known: nothing yet on
/// success, where the content is to be read, and the failure with the reply's
/// body otherwise.
pub fn check_status(status: u16, body: String) -> (r: Option<GenError>)
    ensures
        is_success_status(status) <==> r is None,
        !is_success_status(status) ==> (r matches Some(GenError::Api { body: b }) && b == body),
{
    if status_code_is_success(status) {
        None
    } else {
        Some(GenError::Api { body })
    }
}

/// The commit message a reply yields: the trimmed text of its first block.
pub fn message_from_reply(reply: &ChatResponse) -> (r: Result<String, GenError>)
    ensures
        reply.content@.len() == 0 ==> r matches Err(GenError::NoContent),
        reply.content@.len() > 0 ==> (r matches Ok(m) && m@ == trimmed(reply.content@[0].text@)),
{
    if reply.content.len() == 0 {
        Err(GenError::NoContent)
    } else {
        Ok(trim_text(reply.content[0].text.as_str()))
    }
}

/// What an answer of the service comes to: its status, its body, and the body
/// read as a response (or why it could not be). A failed status gives the body
/// as the failure; on success an unreadable body is a failure, and a readable
/// one gives the trimmed text of its first block.
pub fn settle_reply(status: u16, body: String, decoded: Result<ChatResponse, String>) -> (r: Result<String, GenError>)
    ensures
        !is_success_status(status) ==> (r matches Err(GenError::Api { body: b }) && b == body),
        is_success_status(status) ==> match decoded {
            Err(detail) => r matches Err(GenError::Malformed { detail: d }) && d == detail,
            Ok(reply) => if reply.content@.len() == 0 {
                r matches Err(GenError::NoContent)
            } else {
                r matches Ok(m) && m@ == trimmed(reply.content@[0].text@)
            },
        },
{
    match check_status(status, body) {
        Some(e) => Err(e),
        None => match decoded {
            Err(detail) => Err(GenError::Malformed { detail }),
            Ok(reply) => message_from_reply(&reply),
        },
    }
}

} // verus!
