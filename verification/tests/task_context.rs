use llm_wiki_desktop::evidence::Json;
use llm_wiki_desktop::task_context::{bound_context, strip_field};

fn text(s: &str) -> Json {
    Json::Text(s.to_string())
}

fn obj(fields: Vec<(&str, Json)>) -> Json {
    Json::Object(fields.into_iter().map(|(k, v)| (k.to_string(), v)).collect())
}

#[test]
fn task_context_drops_binary_data_and_bounds_texts_and_lists() {
    let context = obj(vec![
        ("title", text("Ship")),
        (
            "workLog",
            Json::Array(vec![obj(vec![
                ("body", text(&"b".repeat(4001))),
                ("imageData", text("AAAA")),
                ("imageHash", text("h")),
            ])]),
        ),
        ("attachments", Json::Array((0..101).map(|i| Json::Number(i.to_string())).collect())),
        ("data", text("secret bytes")),
    ]);
    let (bounded, cut) = bound_context(&context);
    assert!(cut);
    let expected_log = Json::Array(vec![obj(vec![
        ("body", text(&"b".repeat(4000))),
        ("imageHash", text("h")),
    ])]);
    match &bounded {
        Json::Object(fields) => {
            let keys: Vec<&str> = fields.iter().map(|(k, _)| k.as_str()).collect();
            assert_eq!(keys, vec!["title", "workLog", "attachments"]);
            assert_eq!(fields[1].1, expected_log);
            match &fields[2].1 {
                Json::Array(items) => assert_eq!(items.len(), 100),
                _ => panic!("not an array"),
            }
        }
        _ => panic!("not an object"),
    }
}

#[test]
fn small_task_context_is_left_whole() {
    let context = obj(vec![("title", text("Ship")), ("checklist", Json::Array(vec![Json::Bool(true)]))]);
    let (bounded, cut) = bound_context(&context);
    assert!(!cut);
    assert_eq!(bounded, context);
}

#[test]
fn draft_lineage_is_left_out() {
    let row = obj(vec![("revision", Json::Number("2".into())), ("lineage", text("{}")), ("state", text("draft"))]);
    assert_eq!(
        strip_field(&row, "lineage"),
        obj(vec![("revision", Json::Number("2".into())), ("state", text("draft"))])
    );
    assert_eq!(strip_field(&text("x"), "lineage"), text("x"));
}
