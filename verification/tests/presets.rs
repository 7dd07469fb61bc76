use jso_protector::presets;

#[test]
fn preset_table_has_expected_entries() {
    let ps = presets();
    assert!(ps.contains_key("standard"));
    assert!(ps.contains_key("balanced"));
    assert!(ps.contains_key("maximum"));
    assert!(ps.get("maximum").unwrap().len() > ps.get("standard").unwrap().len());
}

#[test]
fn preset_table_lists_exact_options() {
    let ps = presets();
    assert_eq!(ps.len(), 3);
    let standard = ps.get("standard").unwrap();
    let names: Vec<&str> = standard.options().iter().map(|o| o.0).collect();
    assert_eq!(names, vec!["Compress", "EncodeStrings", "MoveStringsIntoArray", "NameMangling"]);
    assert!(standard.options().iter().all(|o| o.1));
    assert_eq!(ps.get("balanced").unwrap().len(), 8);
    assert_eq!(ps.get("maximum").unwrap().len(), 12);
    assert_eq!(ps.get("maximum").unwrap().get("DeadCodeInsertion"), Some(true));
    assert_eq!(ps.get("standard").unwrap().get("FlatTransform"), None);
    assert_eq!(ps.get("balanced").unwrap().name(), "balanced");
}

#[test]
fn preset_lookup_is_exact() {
    let ps = presets();
    assert!(!ps.contains_key("Standard"));
    assert!(!ps.contains_key("elephant"));
    assert!(ps.get("").is_none());
}
