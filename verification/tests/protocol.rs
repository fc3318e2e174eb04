use llm_wiki_desktop::protocol::{line_text, LineReader};

#[test]
fn protocol_lines_end_at_newlines_and_drop_a_carriage_return() {
    let mut reader = LineReader::new();
    let first = reader.feed(b"{\"id\":1}\r\n{\"id\"").unwrap();
    assert_eq!(first.consumed, 10);
    assert_eq!(first.line.unwrap(), b"{\"id\":1}".to_vec());
    let partial = reader.feed(b"{\"id\"").unwrap();
    assert_eq!(partial.consumed, 5);
    assert!(partial.line.is_none());
    let done = reader.feed(b":2}\nnext").unwrap();
    assert_eq!(done.consumed, 4);
    assert_eq!(line_text(done.line.unwrap()).unwrap(), "{\"id\":2}");
    assert!(reader.finish().is_none());
    reader.feed(b"tail").unwrap();
    assert_eq!(reader.finish().unwrap(), b"tail".to_vec());
}

#[test]
fn oversized_or_invalid_lines_are_refused() {
    let mut reader = LineReader::new();
    let big = vec![b'a'; 8 * 1024 * 1024];
    assert!(reader.feed(&big).unwrap().line.is_none());
    assert_eq!(
        reader.feed(b"b").unwrap_err(),
        "Codex app-server emitted an oversized protocol message"
    );
    assert_eq!(line_text(vec![0xff, 0xfe]).unwrap_err(), "Codex app-server emitted invalid UTF-8");
    assert_eq!(line_text("héllo".as_bytes().to_vec()).unwrap(), "héllo");
}
