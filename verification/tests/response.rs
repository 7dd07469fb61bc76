use jso_protector::{finish_request, interpret_answer, Error, HttpOutcome, JsonValue};

fn obj(members: Vec<(&str, JsonValue)>) -> JsonValue {
    JsonValue::Object(members.into_iter().map(|(k, v)| (k.to_string(), v)).collect())
}

fn text(s: &str) -> JsonValue {
    JsonValue::Str(s.to_string())
}

#[test]
fn label_propagates_as_release_label_answer() {
    let answer = obj(vec![
        ("Type", text("Succeed")),
        ("Items", JsonValue::Array(vec![obj(vec![("FileName", text("app.js")), ("FileCode", text("PROTECTED;"))])])),
        ("Report", obj(vec![("BuildId", text("rel-1")), ("PolymorphismFingerprint", text("abc123"))])),
    ]);
    let result = finish_request(HttpOutcome::Body(answer)).expect("protect failed");
    assert_eq!(result.build_id.as_deref(), Some("rel-1"));
    assert_eq!(result.polymorphism_fingerprint.as_deref(), Some("abc123"));
    assert_eq!(result.files.get("app.js").map(String::as_str), Some("PROTECTED;"));
    assert_eq!(result.report.get("BuildId").and_then(|v| v.as_str()), Some("rel-1"));
    assert_eq!(result.raw.get("Type").and_then(|v| v.as_str()), Some("Succeed"));
}

#[test]
fn non_succeed_type_returns_api_error_with_metadata() {
    let answer = obj(vec![
        ("Type", text("Error")),
        ("Message", text("Invalid API key")),
        ("ErrorCode", text("AUTH_FAIL")),
    ]);
    let err = finish_request(HttpOutcome::Body(answer)).err().expect("expected error");
    match err {
        Error::Api { message, kind, code } => {
            assert_eq!(message, "Invalid API key");
            assert_eq!(kind.as_deref(), Some("Error"));
            assert_eq!(code.as_deref(), Some("AUTH_FAIL"));
        }
        other => panic!("expected Error::Api, got {other:?}"),
    }
}

#[test]
fn refusal_message_falls_back_to_code_then_fixed_text() {
    let err = interpret_answer(obj(vec![("ErrorCode", text("QUOTA"))])).err().unwrap();
    match err {
        Error::Api { message, kind, code } => {
            assert_eq!(message, "QUOTA");
            assert_eq!(kind.as_deref(), Some(""));
            assert_eq!(code.as_deref(), Some("QUOTA"));
        }
        other => panic!("unexpected {other:?}"),
    }
    let err = interpret_answer(obj(vec![("Type", JsonValue::Number("1".to_string()))])).err().unwrap();
    match err {
        Error::Api { message, kind, code } => {
            assert_eq!(message, "API request failed");
            assert_eq!(kind.as_deref(), Some(""));
            assert_eq!(code, None);
        }
        other => panic!("unexpected {other:?}"),
    }
}

#[test]
fn answer_without_files_is_refused() {
    let answer = obj(vec![
        ("Type", text("Succeed")),
        ("Items", JsonValue::Array(vec![obj(vec![("FileName", text("")), ("FileCode", text("x"))]), text("junk")])),
    ]);
    match interpret_answer(answer) {
        Err(Error::Api { message, kind, code }) => {
            assert_eq!(message, "API response did not include any protected files");
            assert_eq!(kind, None);
            assert_eq!(code, None);
        }
        _ => panic!("expected a refusal"),
    }
    assert!(matches!(interpret_answer(obj(vec![("Type", text("Succeed"))])), Err(Error::Api { .. })));
}

#[test]
fn files_missing_code_are_empty_and_later_items_win() {
    let answer = obj(vec![
        ("Type", text("Succeed")),
        ("Items", JsonValue::Array(vec![
            obj(vec![("FileName", text("a.js"))]),
            obj(vec![("FileName", text("b.js")), ("FileCode", text("B1"))]),
            obj(vec![("FileName", text("b.js")), ("FileCode", text("B2"))]),
        ])),
    ]);
    let result = interpret_answer(answer).unwrap();
    assert_eq!(result.files.len(), 2);
    assert_eq!(result.files.get("a.js").map(String::as_str), Some(""));
    assert_eq!(result.files.get("b.js").map(String::as_str), Some("B2"));
    assert!(matches!(result.report, JsonValue::Null));
    assert_eq!(result.build_id, None);
}

#[test]
fn http_status_keeps_first_two_hundred_characters() {
    let body: String = "é".repeat(250);
    match finish_request(HttpOutcome::Status { code: 503, body }) {
        Err(Error::Http { status, snippet }) => {
            assert_eq!(status, 503);
            assert_eq!(snippet.chars().count(), 200);
            assert!(snippet.chars().all(|c| c == 'é'));
        }
        _ => panic!("expected an HTTP error"),
    }
    match finish_request(HttpOutcome::Status { code: 404, body: "nope".to_string() }) {
        Err(e) => assert_eq!(e.message(), "HTTP 404: nope"),
        _ => panic!("expected an HTTP error"),
    }
}

#[test]
fn transport_and_decoding_failures_pass_through() {
    match finish_request(HttpOutcome::Transport("refused".to_string())) {
        Err(Error::Transport(m)) => assert_eq!(m, "refused"),
        _ => panic!("expected a transport error"),
    }
    match finish_request(HttpOutcome::Malformed("bad".to_string())) {
        Err(e) => assert_eq!(e.message(), "malformed JSON in response: bad"),
        _ => panic!("expected a decoding error"),
    }
}

#[test]
fn error_messages() {
    assert_eq!(
        Error::MissingCredentials.message(),
        "JSO API credentials not configured. Set api_key/api_password or export JSO_API_KEY / JSO_API_PASSWORD."
    );
    assert_eq!(Error::EmptyFiles.message(), "at least one file is required");
    assert_eq!(Error::UnknownPreset("ele\"phant".to_string()).message(), "unknown preset \"ele\\\"phant\"");
    assert_eq!(Error::Http { status: 0, snippet: String::new() }.message(), "HTTP 0: ");
    assert_eq!(Error::Http { status: 65535, snippet: "x".to_string() }.message(), "HTTP 65535: x");
    assert_eq!(Error::Transport("t".to_string()).message(), "connection failed: t");
    assert_eq!(
        Error::Api { message: "m".to_string(), kind: None, code: None }.message(),
        "m"
    );
}

#[test]
fn deep_clone_copies_every_member() {
    let v = obj(vec![("a", JsonValue::Array(vec![JsonValue::Null, JsonValue::Bool(true)])), ("b", text("x"))]);
    let c = v.deep_clone();
    assert_eq!(format!("{:?}", v), format!("{:?}", c));
}

#[test]
fn get_reads_last_duplicate_and_only_objects() {
    let v = obj(vec![("k", text("first")), ("k", text("second"))]);
    assert_eq!(v.get("k").and_then(|x| x.as_str()), Some("second"));
    assert!(text("k").get("k").is_none());
    assert!(JsonValue::Array(vec![]).as_str().is_none());
}

#[test]
fn options_override_preset_answer() {
    let answer = obj(vec![
        ("Type", text("Succeed")),
        ("Items", JsonValue::Array(vec![obj(vec![("FileName", text("x.js")), ("FileCode", text("OK;"))])])),
    ]);
    let result = finish_request(HttpOutcome::Body(answer)).expect("protect failed");
    assert_eq!(result.files.len(), 1);
    assert_eq!(result.files.get("x.js").map(String::as_str), Some("OK;"));
    assert!(matches!(result.report, JsonValue::Null));
    assert_eq!(result.polymorphism_fingerprint, None);
}
