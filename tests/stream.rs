use playground::delta::{classify_delta, next_step, parse_delta, DeltaEvent, StreamInput, StreamStep};
use playground::openai::{bearer_credential, completions_url};

#[test]
fn url_normalization_with_and_without_slash() {
    assert_eq!(completions_url("https://api.example.com"), "https://api.example.com/v1/chat/completions");
    assert_eq!(completions_url("https://api.example.com/"), "https://api.example.com/v1/chat/completions");
}

#[test]
fn url_of_empty_base() {
    assert_eq!(completions_url(""), "/v1/chat/completions");
}

#[test]
fn bearer_credential_prefixes_key() {
    assert_eq!(bearer_credential("abc"), "Bearer abc");
}

#[test]
fn delta_with_content_is_a_fragment() {
    let data = r#"{"choices":[{"index":0,"delta":{"content":"Hel"}}]}"#;
    match parse_delta(data) {
        Ok(DeltaEvent::Fragment(f)) => assert_eq!(f, "Hel"),
        other => panic!("expected a fragment, got {:?}", other),
    }
}

#[test]
fn role_only_delta_is_ignored() {
    let data = r#"{"choices":[{"index":0,"delta":{"role":"assistant"}}]}"#;
    assert!(matches!(parse_delta(data), Ok(DeltaEvent::Ignored)));
}

#[test]
fn empty_or_non_string_content_is_ignored() {
    assert!(matches!(parse_delta(r#"{"choices":[{"delta":{"content":""}}]}"#), Ok(DeltaEvent::Ignored)));
    assert!(matches!(parse_delta(r#"{"choices":[{"delta":{"content":null}}]}"#), Ok(DeltaEvent::Ignored)));
    assert!(matches!(parse_delta(r#"{"choices":[]}"#), Ok(DeltaEvent::Ignored)));
}

#[test]
fn done_sentinel_ends_stream() {
    assert!(matches!(parse_delta("[DONE]"), Ok(DeltaEvent::EndOfStream)));
}

#[test]
fn malformed_payload_is_an_error() {
    let e = parse_delta("{not json").unwrap_err();
    assert!(!e.message.is_empty());
    assert!(parse_delta("").is_err());
    assert!(parse_delta("[DONE").is_err());
}

#[test]
fn classify_delta_cases() {
    assert!(matches!(classify_delta(None), DeltaEvent::Ignored));
    assert!(matches!(classify_delta(Some(String::new())), DeltaEvent::Ignored));
    match classify_delta(Some("x".to_string())) {
        DeltaEvent::Fragment(f) => assert_eq!(f, "x"),
        other => panic!("expected a fragment, got {:?}", other),
    }
}

#[test]
fn transport_items_map_to_steps() {
    assert!(matches!(next_step(StreamInput::Opened), StreamStep::Skip));
    assert!(matches!(next_step(StreamInput::Ended), StreamStep::Finish));
    match next_step(StreamInput::Failed { message: "connection reset".to_string() }) {
        StreamStep::Fail(e) => assert_eq!(e.message, "connection reset"),
        other => panic!("expected a failure, got {:?}", other),
    }
    let data = r#"{"choices":[{"delta":{"content":" there"}}]}"#.to_string();
    match next_step(StreamInput::Message { data }) {
        StreamStep::Deliver(f) => assert_eq!(f, " there"),
        other => panic!("expected a delivery, got {:?}", other),
    }
    assert!(matches!(next_step(StreamInput::Message { data: "oops".to_string() }), StreamStep::Fail(_)));
    let role_only = r#"{"choices":[{"delta":{"role":"assistant"}}]}"#.to_string();
    assert!(matches!(next_step(StreamInput::Message { data: role_only }), StreamStep::Skip));
}
