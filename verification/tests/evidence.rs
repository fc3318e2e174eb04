use llm_wiki_desktop::evidence::{
    copy_json, formal_projection, get_field, item_paths, item_summary, sanitize_completed_item,
    sanitize_evidence_value, sanitize_formal_request, sanitize_permission_profile, Json,
};

fn text(s: &str) -> Json {
    Json::Text(s.to_string())
}

fn obj(fields: Vec<(&str, Json)>) -> Json {
    Json::Object(fields.into_iter().map(|(k, v)| (k.to_string(), v)).collect())
}

fn keys(j: &Json) -> Vec<String> {
    match j {
        Json::Object(f) => f.iter().map(|(k, _)| k.clone()).collect(),
        _ => panic!("not an object"),
    }
}

fn at<'a>(j: &'a Json, key: &str) -> &'a Json {
    get_field(j, key).unwrap_or_else(|| panic!("missing {key}"))
}

#[test]
fn file_change_evidence_projects_provider_objects_as_string_paths() {
    let item = obj(vec![
        ("id", text("file-change")),
        ("type", text("fileChange")),
        ("status", text("completed")),
        (
            "changes",
            Json::Array(vec![obj(vec![
                ("kind", obj(vec![("type", text("update"))])),
                ("path", text("/project/src/main.rs")),
            ])]),
        ),
    ]);
    assert_eq!(item_paths(&item), vec!["/project/src/main.rs".to_string()]);
}

#[test]
fn item_paths_take_texts_and_object_paths_and_skip_the_rest() {
    let item = obj(vec![(
        "changes",
        Json::Array(vec![
            text("a.rs"),
            obj(vec![("path", Json::Number("3".into()))]),
            Json::Null,
            obj(vec![("path", text("b.rs"))]),
        ]),
    )]);
    assert_eq!(item_paths(&item), vec!["a.rs".to_string(), "b.rs".to_string()]);
    assert!(item_paths(&obj(vec![("changes", text("x"))])).is_empty());
}

#[test]
fn evidence_keeps_known_keys_and_redacts_texts() {
    let v = obj(vec![
        ("path", text("src/lib.rs")),
        ("secret", text("keep out")),
        ("summary", text("uses token=abc")),
        ("status", Json::Bool(true)),
    ]);
    let safe = sanitize_evidence_value(&v);
    assert_eq!(keys(&safe), vec!["path", "summary", "status"]);
    assert_eq!(at(&safe, "path"), &text("src/lib.rs"));
    assert_eq!(at(&safe, "summary"), &text("[redacted credential-like content]"));
    assert_eq!(at(&safe, "status"), &Json::Bool(true));
}

#[test]
fn evidence_arrays_keep_their_first_hundred_items() {
    let items: Vec<Json> = (0..150).map(|i| Json::Number(i.to_string())).collect();
    let safe = sanitize_evidence_value(&Json::Array(items));
    match safe {
        Json::Array(kept) => {
            assert_eq!(kept.len(), 100);
            assert_eq!(kept[99], Json::Number("99".into()));
        }
        _ => panic!("not an array"),
    }
}

#[test]
fn evidence_texts_are_cut_within_four_thousand_bytes() {
    let long = "é".repeat(3000);
    match sanitize_evidence_value(&text(&long)) {
        Json::Text(t) => {
            assert!(t.ends_with('…'));
            assert_eq!(t.chars().count(), 2001);
        }
        _ => panic!("not a text"),
    }
}

#[test]
fn completed_item_keeps_known_fields_in_order() {
    let item = obj(vec![
        ("text", text("Finished with bearer should-redact")),
        ("id", text("item-2")),
        ("internal", text("drop")),
        ("exitCode", Json::Number("0".into())),
        ("changes", Json::Array(vec![obj(vec![("path", text("x")), ("diff", text("y"))])])),
    ]);
    let safe = sanitize_completed_item(&item);
    assert_eq!(keys(&safe), vec!["id", "text", "exitCode", "changes"]);
    assert_eq!(at(&safe, "text"), &text("[redacted credential-like content]"));
    assert_eq!(at(&safe, "changes"), &Json::Array(vec![obj(vec![("path", text("x"))])]));
}

#[test]
fn completed_item_texts_allow_twenty_thousand_bytes() {
    let long = "a".repeat(20_000);
    let safe = sanitize_completed_item(&obj(vec![("aggregatedOutput", text(&long))]));
    assert_eq!(at(&safe, "aggregatedOutput"), &text(&long));
    let longer = "a".repeat(20_001);
    match at(&sanitize_completed_item(&obj(vec![("command", text(&longer))])), "command") {
        Json::Text(t) => assert_eq!(t.len(), 20_000 + '…'.len_utf8()),
        _ => panic!("not a text"),
    }
}

#[test]
fn permission_profile_keeps_network_and_known_entries() {
    let requested = obj(vec![
        ("network", obj(vec![("enabled", Json::Bool(true))])),
        (
            "fileSystem",
            obj(vec![(
                "entries",
                Json::Array(vec![
                    obj(vec![("path", text("workspace")), ("access", text("write"))]),
                    obj(vec![("path", text("elsewhere")), ("access", text("own"))]),
                    obj(vec![("access", text("read"))]),
                ]),
            )]),
        ),
        ("private", text("discard")),
    ]);
    let safe = sanitize_permission_profile(&requested);
    assert_eq!(
        safe,
        obj(vec![
            ("network", obj(vec![("enabled", Json::Bool(true))])),
            (
                "fileSystem",
                obj(vec![(
                    "entries",
                    Json::Array(vec![obj(vec![
                        ("access", text("write")),
                        ("path", text("workspace"))
                    ])])
                )])
            ),
        ])
    );
    assert_eq!(sanitize_permission_profile(&Json::Null), obj(vec![]));
    let no_switch = obj(vec![("network", obj(vec![("enabled", text("yes"))]))]);
    assert_eq!(sanitize_permission_profile(&no_switch), obj(vec![]));
}

#[test]
fn formal_request_keeps_identity_redacts_texts_and_filters_decisions() {
    let request = obj(vec![
        ("threadId", text("thread-a")),
        ("turnId", text("turn-a")),
        ("reason", text("Needs api_key=123")),
        ("availableDecisions", Json::Array(vec![text("accept"), text("explode"), text("decline")])),
        ("permissions", obj(vec![("network", obj(vec![("enabled", Json::Bool(false))]))])),
    ]);
    let safe = sanitize_formal_request("permissions_approval", &request);
    assert_eq!(
        keys(&safe),
        vec![
            "threadId", "turnId", "itemId", "reason", "command", "cwd", "isBlocking", "questions",
            "availableDecisions", "permissions"
        ]
    );
    assert_eq!(at(&safe, "threadId"), &text("thread-a"));
    assert_eq!(at(&safe, "itemId"), &Json::Null);
    assert_eq!(at(&safe, "reason"), &text("[redacted credential-like content]"));
    assert_eq!(at(&safe, "command"), &text(""));
    assert_eq!(at(&safe, "cwd"), &Json::Null);
    assert_eq!(at(&safe, "isBlocking"), &Json::Bool(true));
    assert_eq!(at(&safe, "questions"), &Json::Array(vec![]));
    assert_eq!(at(&safe, "availableDecisions"), &Json::Array(vec![text("accept"), text("decline")]));
    assert_eq!(
        at(&safe, "permissions"),
        &obj(vec![("network", obj(vec![("enabled", Json::Bool(false))]))])
    );
    let plain = sanitize_formal_request("command_approval", &obj(vec![("cwd", text("/tmp"))]));
    assert_eq!(keys(&plain).len(), 8);
    assert_eq!(at(&plain, "cwd"), &text("/tmp"));
}

#[test]
fn formal_request_questions_are_bounded() {
    let question = obj(vec![
        ("id", text("pick")),
        ("header", text("Pick")),
        ("question", text("Choose")),
        ("isOther", Json::Bool(false)),
        (
            "options",
            Json::Array(vec![
                obj(vec![("label", text("Safe")), ("description", text("bounded"))]),
                obj(vec![("description", text("no label"))]),
            ]),
        ),
    ]);
    let many: Vec<Json> = (0..25).map(|_| copy_json(&question)).collect();
    let safe = sanitize_formal_request("user_input", &obj(vec![("questions", Json::Array(many))]));
    match at(&safe, "questions") {
        Json::Array(qs) => {
            assert_eq!(qs.len(), 20);
            assert_eq!(
                qs[0],
                obj(vec![
                    ("id", text("pick")),
                    ("header", text("Pick")),
                    ("question", text("Choose")),
                    ("isOther", Json::Bool(false)),
                    ("isSecret", Json::Bool(false)),
                    (
                        "options",
                        Json::Array(vec![obj(vec![
                            ("label", text("Safe")),
                            ("description", text("bounded"))
                        ])])
                    ),
                ])
            );
        }
        _ => panic!("not an array"),
    }
}

#[test]
fn formal_projection_offers_default_choices_by_kind() {
    let stored = obj(vec![("isBlocking", Json::Bool(true))]);
    let shown = formal_projection(
        "req-1".into(),
        "permissions_approval",
        "awaiting_response".into(),
        true,
        &stored,
        None,
        None,
        Some(obj(vec![("decision", text("decline"))])),
    );
    assert_eq!(at(&shown, "title"), &text("Codex approval"));
    assert_eq!(at(&shown, "prompt"), &text("Codex needs a structured response."));
    assert_eq!(
        at(&shown, "choices"),
        &Json::Array(vec![
            obj(vec![("value", text("accept")), ("label", text("Allow"))]),
            obj(vec![("value", text("decline")), ("label", text("Deny"))]),
        ])
    );
    assert_eq!(at(&shown, "error"), &Json::Null);
    assert_eq!(at(&shown, "proposedResponse"), &Json::Null);
    assert_eq!(at(&shown, "response"), &obj(vec![("decision", text("decline"))]));
}

#[test]
fn formal_projection_shows_questions_for_user_input() {
    let stored = obj(vec![
        ("reason", text("Pick one")),
        ("availableDecisions", Json::Array(vec![text("cancel"), text("custom")])),
        (
            "questions",
            Json::Array(vec![obj(vec![
                ("id", text("choice")),
                ("prompt", text("Continue?")),
                ("options", Json::Array(vec![obj(vec![("label", text("Yes"))])])),
                ("isOther", Json::Bool(true)),
            ])]),
        ),
    ]);
    let shown = formal_projection(
        "req-2".into(),
        "user_input",
        "stale".into(),
        false,
        &stored,
        Some("stale_request".into()),
        None,
        None,
    );
    assert_eq!(at(&shown, "title"), &text("Codex question"));
    assert_eq!(at(&shown, "prompt"), &text("Pick one"));
    assert_eq!(
        at(&shown, "choices"),
        &Json::Array(vec![
            obj(vec![("value", text("cancel")), ("label", text("Deny and stop"))]),
            obj(vec![("value", text("custom")), ("label", text("custom"))]),
        ])
    );
    assert_eq!(
        at(&shown, "questions"),
        &Json::Array(vec![obj(vec![
            ("id", text("choice")),
            ("header", text("Question")),
            ("prompt", text("Continue?")),
            (
                "options",
                Json::Array(vec![obj(vec![
                    ("value", text("Yes")),
                    ("label", text("Yes")),
                    ("description", text(""))
                ])])
            ),
            ("allowOther", Json::Bool(true)),
            ("isSecret", Json::Bool(false)),
        ])])
    );
    assert_eq!(at(&shown, "error"), &text("stale_request"));
}

#[test]
fn item_summary_prefers_text_fields_then_the_rendered_item() {
    let item = obj(vec![("command", text("cargo test")), ("name", text("tests"))]);
    assert_eq!(item_summary(&item, "{}"), "cargo test");
    let bare = obj(vec![("exitCode", Json::Number("1".into()))]);
    assert_eq!(item_summary(&bare, "{\"exitCode\":1}"), "{\"exitCode\":1}");
}

#[test]
fn copies_keep_the_whole_document() {
    let doc = obj(vec![
        ("a", Json::Array(vec![Json::Null, Json::Bool(false), Json::Number("2.5".into())])),
        ("b", obj(vec![("c", text("d"))])),
    ]);
    assert_eq!(copy_json(&doc), doc);
}

#[test]
fn sanitized_evidence_is_bounded_at_every_depth() {
    let inner: Vec<Json> = (0..120).map(|_| obj(vec![("name", text("n")), ("x", text("y"))])).collect();
    let v = obj(vec![("kind", Json::Array(inner)), ("other", text("z"))]);
    let safe = sanitize_evidence_value(&v);
    assert_eq!(keys(&safe), vec!["kind"]);
    match at(&safe, "kind") {
        Json::Array(items) => {
            assert_eq!(items.len(), 100);
            assert!(items.iter().all(|i| keys(i) == vec!["name"]));
        }
        _ => panic!("not an array"),
    }
}
