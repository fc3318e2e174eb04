use llm_wiki_desktop::conversation::{
    check_conversation, delta_content, next_reply_piece, stream_line, LineBuffer,
    RequestRegistry, StreamLine,
};
use llm_wiki_desktop::evidence::Json;

#[test]
fn requests_are_registered_once_and_cancelled_once() {
    let mut registry: RequestRegistry<u32> = RequestRegistry::new();
    assert!(registry.register("req-1", 7).is_ok());
    assert!(registry.is_active("req-1"));
    assert_eq!(registry.register("req-1", 8).unwrap_err(), "Request identifier is already active");
    assert_eq!(registry.register("", 9).unwrap_err(), "Invalid request identifier");
    assert_eq!(registry.register(&"x".repeat(129), 9).unwrap_err(), "Invalid request identifier");
    assert!(registry.register(&"x".repeat(128), 9).is_ok());
    assert_eq!(registry.remove("req-1"), Some(7));
    assert_eq!(registry.remove("req-1"), None);
    assert!(!registry.is_active("req-1"));
    assert!(registry.register("req-1", 10).is_ok());
}

#[test]
fn stream_lines_are_read_as_data_done_or_skipped() {
    assert!(matches!(stream_line("data: {\"a\":1}\r"), StreamLine::Data(p) if p == "{\"a\":1}"));
    assert!(matches!(stream_line("data: [DONE]"), StreamLine::Done));
    assert!(matches!(stream_line("data: [DONE]\r\r"), StreamLine::Done));
    assert!(matches!(stream_line(": keep-alive"), StreamLine::Skip));
    assert!(matches!(stream_line("data:"), StreamLine::Skip));
    assert!(matches!(stream_line("data: "), StreamLine::Data(p) if p.is_empty()));
}

#[test]
fn replies_stay_within_twelve_hundred_characters_on_one_line() {
    let piece = next_reply_piece(0, "two\nlines").unwrap();
    assert_eq!(piece.text, "two\nlines");
    assert_eq!(piece.frame, "data: two lines\n\n");
    let cut = next_reply_piece(1195, "abcdefgh").unwrap();
    assert_eq!(cut.text, "abcde");
    assert!(next_reply_piece(1200, "more").is_none());
}

#[test]
fn conversations_need_a_message_and_a_model() {
    assert_eq!(check_conversation("  ", "m").unwrap_err(), "message is required");
    assert_eq!(check_conversation("hi", " ").unwrap_err(), "Provider model is required");
    assert!(check_conversation("hi", "m").is_ok());
}

#[test]
fn cancelling_a_request_gives_back_its_own_handle() {
    let mut registry: RequestRegistry<u32> = RequestRegistry::new();
    assert!(registry.register("first", 1).is_ok());
    assert!(registry.register("second", 2).is_ok());
    assert!(registry.register("third", 3).is_ok());
    assert_eq!(registry.remove("second"), Some(2));
    assert_eq!(registry.remove("third"), Some(3));
    assert_eq!(registry.remove("first"), Some(1));
    assert_eq!(registry.remove("first"), None);
}

fn object(entries: Vec<(&str, Json)>) -> Json {
    Json::Object(entries.into_iter().map(|(k, v)| (k.to_string(), v)).collect())
}

#[test]
fn stream_payloads_carry_their_delta_text() {
    let payload = object(vec![(
        "choices",
        Json::Array(vec![object(vec![("delta", object(vec![("content", Json::Text("Hel".into()))]))])]),
    )]);
    assert_eq!(delta_content(&payload), Some("Hel".to_string()));
    let no_content = object(vec![("choices", Json::Array(vec![object(vec![("delta", object(vec![]))])]))]);
    assert_eq!(delta_content(&no_content), None);
    assert_eq!(delta_content(&object(vec![("choices", Json::Array(vec![]))])), None);
    let not_text = object(vec![(
        "choices",
        Json::Array(vec![object(vec![("delta", object(vec![("content", Json::Null)]))])]),
    )]);
    assert_eq!(delta_content(&not_text), None);
}

#[test]
fn received_text_is_split_into_lines() {
    let mut buffer = LineBuffer::new();
    buffer.push("data: {\"a\"");
    assert_eq!(buffer.next_line(), None);
    buffer.push(":1}\r\ndata: [DONE]\n: tail");
    assert_eq!(buffer.next_line(), Some("data: {\"a\":1}\r".to_string()));
    assert_eq!(buffer.next_line(), Some("data: [DONE]".to_string()));
    assert_eq!(buffer.next_line(), None);
    buffer.push("\n");
    assert_eq!(buffer.next_line(), Some(": tail".to_string()));
}
