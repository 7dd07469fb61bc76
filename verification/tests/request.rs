use jso_protector::{
    prepare_request, EnvCredentials, Error, JsonValue, ProtectRequest, StrMap, DEFAULT_ENDPOINT,
};

fn no_env() -> EnvCredentials {
    EnvCredentials { api_key: vec![], api_password: vec![] }
}

fn one_file(name: &str, code: &str) -> StrMap<String> {
    let mut files = StrMap::new();
    files.insert(name.to_string(), code.to_string());
    files
}

fn with_credentials(files: StrMap<String>) -> ProtectRequest {
    ProtectRequest {
        files,
        api_key: Some("k".to_string()),
        api_password: Some("p".to_string()),
        ..Default::default()
    }
}

fn text_of<'a>(body: &'a JsonValue, key: &str) -> Option<&'a str> {
    body.get(key).and_then(|v| v.as_str())
}

fn flag_of(body: &JsonValue, key: &str) -> Option<bool> {
    match body.get(key) {
        Some(JsonValue::Bool(b)) => Some(*b),
        _ => None,
    }
}

#[test]
fn unknown_preset_errors() {
    let mut files = StrMap::new();
    files.insert("a.js".to_string(), "x".to_string());
    let result = prepare_request(
        &ProtectRequest {
            files,
            preset: Some("elephant".to_string()),
            api_key: Some("k".to_string()),
            api_password: Some("p".to_string()),
            ..Default::default()
        },
        &no_env(),
    );
    assert!(matches!(result, Err(Error::UnknownPreset(_))));
}

#[test]
fn empty_files_errors() {
    let result = prepare_request(
        &ProtectRequest {
            api_key: Some("k".to_string()),
            api_password: Some("p".to_string()),
            ..Default::default()
        },
        &no_env(),
    );
    assert!(matches!(result, Err(Error::EmptyFiles)));
}

#[test]
fn missing_credentials_errors() {
    let mut files = StrMap::new();
    files.insert("a.js".to_string(), "x".to_string());
    let result = prepare_request(&ProtectRequest { files, ..Default::default() }, &no_env());
    assert!(matches!(result, Err(Error::MissingCredentials)));
}

#[test]
fn label_propagates_as_release_label() {
    let req = ProtectRequest {
        files: one_file("app.js", "let x = 1;"),
        preset: Some("balanced".to_string()),
        label: Some("ci-build-7f3a".to_string()),
        api_key: Some("k".to_string()),
        api_password: Some("p".to_string()),
        endpoint: Some("http://127.0.0.1:1234/HttpApi.ashx".to_string()),
        ..Default::default()
    };
    let prepared = prepare_request(&req, &no_env()).expect("protect failed");
    assert_eq!(prepared.endpoint, "http://127.0.0.1:1234/HttpApi.ashx");
    assert_eq!(text_of(&prepared.body, "ReleaseLabel"), Some("ci-build-7f3a"));
    assert_eq!(text_of(&prepared.body, "APIKey"), Some("k"));
    assert_eq!(text_of(&prepared.body, "APIPwd"), Some("p"));
    assert_eq!(flag_of(&prepared.body, "FlatTransform"), Some(true));
}

#[test]
fn options_override_preset() {
    let mut options = StrMap::new();
    options.insert("FlatTransform".to_string(), JsonValue::Bool(false));
    options.insert("LockDomain".to_string(), JsonValue::Bool(true));
    options.insert("LockDomainList".to_string(), JsonValue::Str("example.com".to_string()));
    let req = ProtectRequest {
        files: one_file("x.js", "y"),
        preset: Some("balanced".to_string()),
        options,
        api_key: Some("k".to_string()),
        api_password: Some("p".to_string()),
        ..Default::default()
    };
    let prepared = prepare_request(&req, &no_env()).expect("protect failed");
    assert_eq!(flag_of(&prepared.body, "FlatTransform"), Some(false));
    assert_eq!(flag_of(&prepared.body, "LockDomain"), Some(true));
    assert_eq!(text_of(&prepared.body, "LockDomainList"), Some("example.com"));
    assert_eq!(flag_of(&prepared.body, "DeepObfuscate"), Some(true));
}

#[test]
fn defaults_fill_endpoint_project_and_preset() {
    let prepared = prepare_request(&with_credentials(one_file("a.js", "x")), &no_env()).unwrap();
    assert_eq!(prepared.endpoint, DEFAULT_ENDPOINT);
    assert_eq!(text_of(&prepared.body, "Name"), Some("rust-session"));
    assert_eq!(flag_of(&prepared.body, "CodeTransposition"), Some(true));
    assert_eq!(flag_of(&prepared.body, "ProtectMembers"), None);
    assert!(prepared.body.get("ReleaseLabel").is_none());
}

#[test]
fn preset_name_ignores_letter_case() {
    let mut req = with_credentials(one_file("a.js", "x"));
    req.preset = Some("MAXIMUM".to_string());
    let prepared = prepare_request(&req, &no_env()).unwrap();
    assert_eq!(flag_of(&prepared.body, "DeadCodeInsertion"), Some(true));
    req.preset = Some("Standard".to_string());
    let prepared = prepare_request(&req, &no_env()).unwrap();
    assert_eq!(flag_of(&prepared.body, "EncryptStrings"), None);
    assert_eq!(flag_of(&prepared.body, "NameMangling"), Some(true));
}

#[test]
fn unknown_preset_keeps_the_name_as_given() {
    let mut req = with_credentials(one_file("a.js", "x"));
    req.preset = Some("Elephant".to_string());
    match prepare_request(&req, &no_env()) {
        Err(Error::UnknownPreset(name)) => assert_eq!(name, "Elephant"),
        _ => panic!("expected an unknown preset"),
    }
}

#[test]
fn empty_label_is_not_sent() {
    let mut req = with_credentials(one_file("a.js", "x"));
    req.label = Some(String::new());
    let prepared = prepare_request(&req, &no_env()).unwrap();
    assert!(prepared.body.get("ReleaseLabel").is_none());
    req.label = Some(" ".to_string());
    let prepared = prepare_request(&req, &no_env()).unwrap();
    assert_eq!(text_of(&prepared.body, "ReleaseLabel"), Some(" "));
}

#[test]
fn credentials_are_trimmed_and_fall_back_to_the_environment() {
    let mut req = with_credentials(one_file("a.js", "x"));
    req.api_key = Some("  key\t".to_string());
    req.api_password = Some("   ".to_string());
    let env = EnvCredentials {
        api_key: vec![Some("envkey".to_string())],
        api_password: vec![None, Some("\u{3000}".to_string()), Some(" envpwd ".to_string())],
    };
    let prepared = prepare_request(&req, &env).unwrap();
    assert_eq!(text_of(&prepared.body, "APIKey"), Some("key"));
    assert_eq!(text_of(&prepared.body, "APIPwd"), Some("envpwd"));
}

#[test]
fn blank_credentials_everywhere_are_missing() {
    let mut req = with_credentials(one_file("a.js", "x"));
    req.api_password = None;
    let env = EnvCredentials {
        api_key: vec![],
        api_password: vec![Some(" \n ".to_string()), None],
    };
    assert!(matches!(prepare_request(&req, &env), Err(Error::MissingCredentials)));
}

#[test]
fn credentials_are_checked_before_files() {
    let result = prepare_request(&ProtectRequest::default(), &no_env());
    assert!(matches!(result, Err(Error::MissingCredentials)));
}

#[test]
fn files_are_sent_as_items() {
    let mut files = one_file("a.js", "one");
    files.insert("b.js".to_string(), "two".to_string());
    files.insert("a.js".to_string(), "three".to_string());
    assert_eq!(files.len(), 2);
    let prepared = prepare_request(&with_credentials(files), &no_env()).unwrap();
    let items = prepared.body.get("Items").and_then(|v| v.as_array()).unwrap();
    assert_eq!(items.len(), 2);
    assert_eq!(text_of(&items[0], "FileName"), Some("a.js"));
    assert_eq!(text_of(&items[0], "FileCode"), Some("three"));
    assert_eq!(text_of(&items[1], "FileName"), Some("b.js"));
    assert_eq!(text_of(&items[1], "FileCode"), Some("two"));
}

#[test]
fn override_can_replace_a_fixed_member() {
    let mut req = with_credentials(one_file("a.js", "x"));
    req.options.insert("Name".to_string(), JsonValue::Str("custom".to_string()));
    req.project_name = Some("proj".to_string());
    let prepared = prepare_request(&req, &no_env()).unwrap();
    assert_eq!(text_of(&prepared.body, "Name"), Some("custom"));
}

#[test]
fn request_credential_beats_environment() {
    let req = with_credentials(one_file("a.js", "x"));
    let env = EnvCredentials {
        api_key: vec![Some("envkey".to_string())],
        api_password: vec![Some("envpwd".to_string())],
    };
    let prepared = prepare_request(&req, &env).unwrap();
    assert_eq!(text_of(&prepared.body, "APIKey"), Some("k"));
    assert_eq!(text_of(&prepared.body, "APIPwd"), Some("p"));
}

#[test]
fn errors_do_not_depend_on_credentials() {
    let mut a = with_credentials(one_file("a.js", "x"));
    a.preset = Some("nope".to_string());
    let mut b = ProtectRequest { files: one_file("a.js", "x"), ..Default::default() };
    b.preset = Some("nope".to_string());
    let env = EnvCredentials {
        api_key: vec![Some("secret-key".to_string())],
        api_password: vec![Some("secret-pwd".to_string())],
    };
    let ea = prepare_request(&a, &no_env()).err().unwrap().message();
    let eb = prepare_request(&b, &env).err().unwrap().message();
    assert_eq!(ea, eb);
    assert!(!eb.contains("secret"));
}

#[test]
fn timeout_defaults_to_three_minutes() {
    let mut req = with_credentials(one_file("a.js", "x"));
    let prepared = prepare_request(&req, &no_env()).unwrap();
    assert_eq!(prepared.timeout_ms, 180_000);
    req.timeout = Some(5_000);
    let prepared = prepare_request(&req, &no_env()).unwrap();
    assert_eq!(prepared.timeout_ms, 5_000);
}
