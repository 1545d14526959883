//! The request for a summary of a story's text.

use vstd::prelude::*;
use vstd::string::StringExecFns;

verus! {

/// One message of the conversation that is sent to the summarizer.
pub struct Message {
    pub role: String,
    pub content: String,
}

/// The body of a summary request.
pub struct SummaryRequest {
    pub model: String,
    pub messages: Vec<Message>,
    pub max_tokens: u32,
}

/// Longest summary that is asked for, in tokens.
pub const SUMMARY_TOKENS: u32 = 150;

/// Address that summary requests are sent to.
pub open spec fn endpoint_text() -> Seq<char> {
    "https://api.anthropic.com/v1/messages"@
}

/// Name of the header that carries the access key.
pub open spec fn key_header_text() -> Seq<char> {
    "x-api-key"@
}

/// The instruction that asks for a summary of `text`.
pub open spec fn prompt(text: Seq<char>) -> Seq<char> {
    "Please summarize this Hacker News post concisely:\n\n"@ + text
}

/// Address that summary requests are sent to.
pub fn endpoint() -> (url: &'static str)
    ensures
        url@ == endpoint_text(),
{
    "https://api.anthropic.com/v1/messages"
}

/// Name of the header that carries the access key.
pub fn key_header() -> (name: &'static str)
    ensures
        name@ == key_header_text(),
{
    "x-api-key"
}

/// The request that asks `model` for a summary of `text`: one message of the
/// user, which holds the instruction and the text, and a bound on the length
/// of the answer.
pub fn summary_request(model: &str, text: &str) -> (request: SummaryRequest)
    ensures
        request.model@ == model@,
        request.max_tokens == SUMMARY_TOKENS,
        request.messages@.len() == 1,
        request.messages@[0].role@ == "user"@,
        request.messages@[0].content@ == prompt(text@),
{
    let mut messages: Vec<Message> = Vec::new();
    messages.push(
        Message {
            role: String::from_str("user"),
            content: String::from_str(
                "Please summarize this Hacker News post concisely:\n\n",
            ).concat(text),
        },
    );
    SummaryRequest {
        model: String::from_str(model),
        messages,
        max_tokens: SUMMARY_TOKENS,
    }
}

} // verus!
