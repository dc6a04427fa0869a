use vscode_profile_importer::import::ImportReport;
use vscode_profile_importer::json::{json_to_pretty_string, parse_json, Json};
use vscode_profile_importer::pattern::{extract_any_field, extract_string_field};
use vscode_profile_importer::profile::{
    decode_jsonc_field, decode_nested_strings, extract_extension_ids, profile_from_fields, ImportError,
};
use vscode_profile_importer::storage::{
    patch_icon_in, profile_dir_for, profile_location_in, profile_registered_in,
};

fn fields(text: &str) -> Vec<(String, Json)> {
    match parse_json(text).unwrap() {
        Json::Object(f) => f,
        _ => panic!("not an object"),
    }
}

fn member<'a>(f: &'a [(String, Json)], key: &str) -> Option<&'a Json> {
    f.iter().find(|(k, _)| k == key).map(|(_, v)| v)
}

#[test]
fn string_field_key_is_escaped() {
    let raw = "{\"aXb\": \"wrong\", \"a.b\": \"right\"";
    assert_eq!(extract_string_field(raw, "a.b").as_deref(), Some("right"));
    assert_eq!(extract_string_field(raw, "zzz"), None);
    // The raw (escaped) text of the value is returned.
    assert_eq!(extract_string_field("\"name\" :  \"a\\\"b\"", "name").as_deref(), Some("a\\\"b"));
}

#[test]
fn any_field_needs_the_rest_to_be_one_value() {
    let v = extract_any_field("junk \"k\":  \n [1, 2] ", "k").unwrap();
    assert!(matches!(v, Json::Array(ref a) if a.len() == 2));
    assert!(extract_any_field("\"k\": [1], \"j\": 2", "k").is_none());
    assert!(extract_any_field("\"k\":   ", "k").is_none());
    assert!(extract_any_field("\"x\": 1", "k").is_none());
}

#[test]
fn nested_strings_are_decoded_when_json() {
    let f = fields("{\"settings\": \"{\\\"a\\\": 1}\", \"keybindings\": \"not json\", \"globalState\": \"[1]\", \"other\": \"{}\"}");
    let d = decode_nested_strings(f);
    assert!(matches!(member(&d, "settings"), Some(Json::Object(_))));
    assert!(matches!(member(&d, "keybindings"), Some(Json::Str(s)) if s == "not json"));
    assert!(matches!(member(&d, "globalState"), Some(Json::Array(_))));
    assert!(matches!(member(&d, "other"), Some(Json::Str(_))));
    assert_eq!(d.len(), 4);
}

#[test]
fn jsonc_field_variants() {
    let f = fields("{\"a\": {\"a\": \"inner\"}, \"b\": \"{\\\"b\\\": \\\"x\\\"}\", \"c\": \"raw text\", \"d\": 5, \"e\": {\"e\": 1}}");
    assert_eq!(decode_jsonc_field(&f, "a", "a"), "inner");
    assert_eq!(decode_jsonc_field(&f, "b", "b"), "x");
    assert_eq!(decode_jsonc_field(&f, "c", "c"), "raw text");
    assert_eq!(decode_jsonc_field(&f, "d", "d"), "");
    assert_eq!(decode_jsonc_field(&f, "e", "e"), "");
    assert_eq!(decode_jsonc_field(&f, "missing", "x"), "");
}

#[test]
fn extension_ids_both_variants() {
    let f = fields("{\"extensions\": [\" a.b \", {\"id\": \"c.d\"}, 3, {\"identifier\": {\"id\": \"e.f\"}}]}");
    assert_eq!(extract_extension_ids(&f), vec!["a.b", "c.d", "e.f"]);
    let f = fields("{\"extensions\": \"[{\\\"id\\\": \\\"x.y\\\"}]\"}");
    assert_eq!(extract_extension_ids(&f), vec!["x.y"]);
    let f = fields("{\"extensions\": \"oops\"}");
    assert!(extract_extension_ids(&f).is_empty());
}

#[test]
fn profile_from_decoded_fields() {
    let f = fields("{\"displayName\": \" Py: Dev \", \"icon\": 7, \"extensions\": [\"m.p\"]}");
    let p = profile_from_fields(&f).unwrap();
    assert_eq!(p.name, "Py: Dev");
    assert_eq!(p.folder_name, "Py_ Dev");
    assert_eq!(p.icon, "");
    assert_eq!(p.extensions, vec!["m.p"]);
    let f = fields("{\"icon\": \"x\"}");
    assert!(matches!(profile_from_fields(&f), Err(ImportError::Invalid(_))));
}

#[test]
fn storage_lookups_on_decoded_root() {
    let root = parse_json("{\"userDataProfiles\": [{\"name\": \"A\", \"location\": \"-a\"}, {\"name\": \"A\", \"location\": \"-b\"}, {\"name\": \"C\", \"location\": 1}]}").unwrap();
    assert!(profile_registered_in("A", &root));
    assert!(profile_registered_in("C", &root));
    assert!(!profile_registered_in("B", &root));
    assert_eq!(profile_location_in("A", &root).as_deref(), Some("-a"));
    assert_eq!(profile_location_in("C", &root), None);
    assert_eq!(profile_dir_for("/h/U/globalStorage/storage.json", "-a").as_deref(), Some("/h/U/profiles/-a"));
    assert_eq!(profile_dir_for("/", "-a"), None);
}

#[test]
fn patched_root_keeps_other_members() {
    let root = parse_json("{\"x\": true, \"userDataProfiles\": [{\"name\": \"B\"}, {\"name\": \"A\", \"icon\": \"old\", \"location\": \"-a\"}]}").unwrap();
    let patched = patch_icon_in(root, "A", "new");
    assert!(profile_registered_in("B", &patched));
    assert_eq!(profile_location_in("A", &patched).as_deref(), Some("-a"));
    let text = json_to_pretty_string(&patched).unwrap();
    let v: serde_json::Value = serde_json::from_str(&text).unwrap();
    assert_eq!(v["userDataProfiles"][1]["icon"].as_str(), Some("new"));
    assert!(v["userDataProfiles"][0].get("icon").is_none());
    assert_eq!(v["x"].as_bool(), Some(true));
}

#[test]
fn report_as_json() {
    let r = ImportReport {
        profile: "P".to_string(),
        profile_dir: Some("/d".to_string()),
        installed: vec!["a".to_string()],
        skipped: vec![],
        failed: vec!["f".to_string()],
        settings_written: None,
        keybindings_written: Some("/d/keybindings.json".to_string()),
    };
    let text = json_to_pretty_string(&r.to_json()).unwrap();
    let v: serde_json::Value = serde_json::from_str(&text).unwrap();
    assert_eq!(v["profile"].as_str(), Some("P"));
    assert_eq!(v["profile_dir"].as_str(), Some("/d"));
    assert_eq!(v["installed"][0].as_str(), Some("a"));
    assert_eq!(v["skipped"].as_array().map(|a| a.len()), Some(0));
    assert_eq!(v["failed"][0].as_str(), Some("f"));
    assert!(v.get("settings_written").is_none());
    assert_eq!(v["keybindings_written"].as_str(), Some("/d/keybindings.json"));
}

#[test]
fn errors_convert_from_causes() {
    let e: ImportError = std::io::Error::new(std::io::ErrorKind::Other, "disk").into();
    assert!(matches!(e, ImportError::Io(_)));
    assert_eq!(e.message(), "I/O error: disk");
    let je = parse_json("{").err().unwrap();
    let e: ImportError = je.into();
    assert!(matches!(e, ImportError::Json(_)));
    assert!(e.message().starts_with("JSON error: "));
    assert_eq!(ImportError::Invalid("x".to_string()).message(), "Invalid profile: x");
}
