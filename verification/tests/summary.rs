use hackertuah::summary::{endpoint, key_header, summary_request, SUMMARY_TOKENS};

#[test]
fn summary_request_holds_one_user_message() {
    let request = summary_request("some-model", "Show HN: a thing");
    assert_eq!(request.model, "some-model");
    assert_eq!(request.max_tokens, 150);
    assert_eq!(SUMMARY_TOKENS, 150);
    assert_eq!(request.messages.len(), 1);
    assert_eq!(request.messages[0].role, "user");
    assert_eq!(
        request.messages[0].content,
        "Please summarize this Hacker News post concisely:\n\nShow HN: a thing"
    );
}

#[test]
fn summary_request_for_an_empty_text() {
    let request = summary_request("m", "");
    assert_eq!(
        request.messages[0].content,
        "Please summarize this Hacker News post concisely:\n\n"
    );
}

#[test]
fn summary_endpoint_and_header() {
    assert_eq!(endpoint(), "https://api.anthropic.com/v1/messages");
    assert_eq!(key_header(), "x-api-key");
}
