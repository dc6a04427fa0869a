use std::collections::{HashMap, HashSet};
use std::path::{Path, PathBuf};

use vscode_profile_importer::escape::escape_newlines_in_strings;
use vscode_profile_importer::folder::{make_folder_name, make_safe_basename};
use vscode_profile_importer::import::{import_profile, ImportAction, ImportEvent, ImportReport};
use vscode_profile_importer::install::{install_command_args, start_install, InstallAction, InstallEvent};
use vscode_profile_importer::json::Json;
use vscode_profile_importer::profile::{extract_ext_id, parse_profile, read_profile_file, ImportError};
use vscode_profile_importer::storage::{patch_icon, profile_registered, resolve_profile_dir};

fn get<'a>(fields: &'a [(String, Json)], key: &str) -> Option<&'a Json> {
    fields.iter().find(|(k, _)| k == key).map(|(_, v)| v)
}

fn as_str(v: Option<&Json>) -> Option<&str> {
    match v {
        Some(Json::Str(s)) => Some(s.as_str()),
        _ => None,
    }
}

/// An in-memory VS Code installation: files with their text, and the
/// directories that exist.
#[derive(Default)]
struct FakeDisk {
    files: HashMap<PathBuf, String>,
    dirs: HashSet<PathBuf>,
}

impl FakeDisk {
    fn read(&self, p: &Path) -> Option<String> {
        self.files.get(p).cloned()
    }

    fn write(&mut self, p: &Path, text: String) -> Result<(), std::io::Error> {
        match p.parent() {
            Some(d) if d.as_os_str().is_empty() || self.dirs.contains(d) => {
                self.files.insert(p.to_path_buf(), text);
                Ok(())
            }
            _ => Err(std::io::Error::new(std::io::ErrorKind::NotFound, "no such directory")),
        }
    }
}

const ROOT: &str = "/fake/User";

/// Runs an import the way the command does, against `disk`: reads the
/// profile file, then performs each action the session asks for.
fn run_import(
    disk: &mut FakeDisk,
    profile_path: &Path,
    storage: &Path,
    mut create_profile: impl FnMut(&str) -> Result<(), String>,
    mut installer: impl FnMut(&str, &str) -> bool,
    mut prompt_overwrite: impl FnMut(&str) -> String,
    mut prompt_extension_fail: impl FnMut(&str) -> String,
    report_path: Option<&Path>,
) -> Result<ImportReport, ImportError> {
    let raw = disk
        .read(profile_path)
        .ok_or_else(|| ImportError::Io(std::io::Error::new(std::io::ErrorKind::NotFound, "missing")))?;
    let profile = parse_profile(&raw)?;
    let (mut session, mut action) = import_profile(
        profile,
        storage.to_string_lossy().into_owned(),
        report_path.map(|p| p.to_string_lossy().into_owned()),
    );
    loop {
        let event = match action {
            ImportAction::ReadStorage => ImportEvent::StorageRead(disk.read(storage)),
            ImportAction::PromptOverwrite(n) => ImportEvent::Answer(prompt_overwrite(&n)),
            ImportAction::CreateProfile(n) => ImportEvent::Created(create_profile(&n)),
            ImportAction::CheckDirectory(d) => ImportEvent::DirectoryChecked(disk.dirs.contains(Path::new(&d))),
            ImportAction::WriteStorage(t) => ImportEvent::Written(disk.write(storage, t)),
            ImportAction::Install { profile, extension } => {
                ImportEvent::Installed(installer(&profile, &extension))
            }
            ImportAction::PromptExtensionFailure(e) => ImportEvent::Answer(prompt_extension_fail(&e)),
            ImportAction::WriteFile { path, contents } => ImportEvent::Written(disk.write(Path::new(&path), contents)),
            ImportAction::Finish(r) => return r,
        };
        action = session.step(event);
    }
}

fn storage_text(name: &str, location: &str) -> String {
    format!(
        "{{\n  \"userDataProfiles\": [\n    {{\n      \"icon\": \"\",\n      \"location\": \"{}\",\n      \"name\": \"{}\"\n    }}\n  ]\n}}",
        location, name
    )
}

/// A disk with `storage.json` registering `name` at `location`.
fn fake_storage(disk: &mut FakeDisk, name: &str, location: &str) -> PathBuf {
    let root = PathBuf::from(ROOT);
    let gs = root.join("globalStorage");
    disk.dirs.insert(root.clone());
    disk.dirs.insert(gs.clone());
    disk.dirs.insert(PathBuf::from("/fake"));
    let p = gs.join("storage.json");
    disk.files.insert(p.clone(), storage_text(name, location));
    p
}

fn setup_fake_vscode(disk: &mut FakeDisk, profile_name: &str) -> (PathBuf, PathBuf) {
    let location = "-fakehash";
    let profile_dir = PathBuf::from(ROOT).join("profiles").join(location);
    disk.dirs.insert(PathBuf::from(ROOT).join("profiles"));
    disk.dirs.insert(profile_dir.clone());
    let sp = fake_storage(disk, profile_name, location);
    (sp, profile_dir)
}

fn one_extension_profile(name: &str, id: &str, display: &str) -> String {
    format!(
        "{{\"extensions\":[{{\"displayName\":\"{}\",\"identifier\":{{\"id\":\"{}\",\"uuid\":\"u\"}}}}],\"name\":\"{}\"}}",
        display, id, name
    )
}

fn settings_profile(name: &str, inner_jsonc: &str) -> String {
    let settings_val = format!("{{\"settings\":{:?}}}", inner_jsonc);
    format!("{{\"name\":\"{}\",\"settings\":{:?}}}", name, settings_val)
}

fn write_profile(disk: &mut FakeDisk, file: &str, text: String) -> PathBuf {
    let p = PathBuf::from("/fake").join(file);
    disk.files.insert(p.clone(), text);
    p
}

// ── make_folder_name / make_safe_basename ──────────────────────────────────

#[test]
fn test_make_folder_name_plain() {
    assert_eq!(make_folder_name("SimpleName"), "SimpleName");
}

#[test]
fn test_make_folder_name_spaces_preserved() {
    assert_eq!(make_folder_name("Rust Dev Hub"), "Rust Dev Hub");
}

#[test]
fn test_make_folder_name_invalid_chars() {
    assert_eq!(make_folder_name("C/C++ Dev"), "C_C++ Dev");
    assert_eq!(make_folder_name("A:B*C?D"), "A_B_C_D");
}

#[test]
fn test_make_safe_basename_compat() {
    assert_eq!(make_safe_basename("My Profile"), "My Profile");
    assert_eq!(make_safe_basename("C/C++ Dev"), "C_C++ Dev");
}

#[test]
fn make_folder_name_blank_gives_empty() {
    assert_eq!(make_folder_name("   "), "");
    assert_eq!(make_folder_name(""), "");
    assert_eq!(make_folder_name("\u{2003}\n"), "");
    assert_eq!(make_folder_name(" / "), "_");
}

#[test]
fn make_folder_name_trims_unicode_whitespace() {
    assert_eq!(make_folder_name("\u{3000}Name\u{a0}\t"), "Name");
    assert_eq!(make_folder_name("a<b>c|d\"e\\f"), "a_b_c_d_e_f");
}

#[test]
fn make_folder_name_is_idempotent_on_examples() {
    for s in ["C/C++ Dev", "  x  ", "", "Weird / Name: ☃", "imported-profile"] {
        let once = make_folder_name(s);
        assert_eq!(make_folder_name(&once), once);
    }
}

// ── parse_profile ──────────────────────────────────────────────────────────

#[test]
fn test_parse_profile_from_file() {
    let mut disk = FakeDisk::default();
    let p = write_profile(
        &mut disk,
        "example.code-profile",
        "{\"name\":\"Example\",\"settings\":\"{\\\"settings\\\":\\\"{}\\\"}\",\"extensions\":\"[]\"}".to_string(),
    );
    let pp = parse_profile(&disk.read(&p).unwrap()).expect("parse profile");
    assert!(!pp.name.is_empty(), "name must be non-empty");
}

#[test]
fn test_parse_profile_extensions_array_variant() {
    let raw = "{\"extensions\":[{\"displayName\":\"Foo Bar\",\"identifier\":{\"id\":\"foo.bar\",\"uuid\":\"x\"}},{\"displayName\":\"Baz Qux\",\"identifier\":{\"id\":\"baz.qux\",\"uuid\":\"y\"}}],\"name\":\"ArrayExt\"}";
    let pp = parse_profile(raw).ok().expect("parse");
    assert_eq!(pp.name, "ArrayExt");
    assert_eq!(pp.extensions, vec!["foo.bar", "baz.qux"]);
}

#[test]
fn test_parse_profile_extensions_string_variant() {
    let ext_arr = r#"[{"identifier":{"id":"a.b","uuid":"u1"},"displayName":"A B"}]"#;
    let raw = format!("{{\"extensions\":{:?},\"name\":\"StringExt\"}}", ext_arr);
    let pp = parse_profile(&raw).ok().expect("parse");
    assert_eq!(pp.extensions, vec!["a.b"]);
}

#[test]
fn test_parse_profile_settings_double_encoded() {
    let inner_jsonc = r#"{"editor.tabSize": 4}"#;
    let raw = settings_profile("SettingsTest", inner_jsonc);
    let pp = parse_profile(&raw).ok().expect("parse");
    assert_eq!(pp.settings_content, inner_jsonc);
}

#[test]
fn test_parse_profile_no_name_errors() {
    assert!(parse_profile(r#"{"icon": "gear"}"#).is_err());
}

#[test]
fn test_parse_profile_tolerant_control_chars() {
    let content = "{\"name\": \"Ctrl\",\n\"settings\": \"line1\nline2\"}";
    let pp = parse_profile(content).ok().expect("tolerant parse");
    assert_eq!(pp.name, "Ctrl");
}

#[test]
fn parse_profile_prefers_name_over_display_name() {
    let pp = parse_profile(r#"{"name": "  Real  ", "displayName": "Shown"}"#).ok().unwrap();
    assert_eq!(pp.name, "Real");
    let pp = parse_profile(r#"{"name": "   ", "displayName": " Shown "}"#).ok().unwrap();
    assert_eq!(pp.name, "Shown");
    assert_eq!(pp.folder_name, "Shown");
    let err = parse_profile(r#"{"name": 3, "displayName": ""}"#).err().unwrap();
    assert_eq!(err.message(), "Invalid profile: Profile has no 'name' field");
}

#[test]
fn parse_profile_reads_icon_and_keybindings() {
    let kb = "[{\"key\": \"ctrl+k\"}]";
    let kb_val = format!("{{\"keybindings\":{:?},\"platform\":3}}", kb);
    let raw = format!("{{\"icon\":\"rocket\",\"keybindings\":{:?},\"name\":\"Keys/Test\"}}", kb_val);
    let pp = parse_profile(&raw).ok().unwrap();
    assert_eq!(pp.icon, "rocket");
    assert_eq!(pp.keybindings_content, kb);
    assert_eq!(pp.folder_name, "Keys_Test");
    assert_eq!(pp.settings_content, "");
    assert!(pp.extensions.is_empty());
}

#[test]
fn parse_profile_raw_jsonc_settings_kept_verbatim() {
    // A settings string that is not JSON is kept as it is.
    let raw = r#"{"name": "Raw", "settings": "// comment\n{}"}"#;
    let pp = parse_profile(raw).ok().unwrap();
    assert_eq!(pp.settings_content, "// comment\n{}");
}

#[test]
fn parse_profile_recovers_fields_from_broken_text() {
    // Not JSON even after escaping: fields are recovered by pattern.
    let raw = "{\"name\": \"Broken\", \"oops\": , \"extensions\": [\"a.b\", \" c.d \"]}";
    let pp = parse_profile(raw).ok().expect("recovered");
    assert_eq!(pp.name, "Broken");
    // `extensions` is not the last value of the text, so it cannot be read.
    assert!(pp.extensions.is_empty());
    let raw = "{\"name\": \"Broken\", \"oops\": , \"extensions\": [\"a.b\", \" c.d \"]";
    let pp = parse_profile(raw).ok().expect("recovered");
    assert_eq!(pp.extensions, vec!["a.b", "c.d"]);
    let err = parse_profile("{\"oops\": ,}").err().unwrap();
    assert_eq!(err.message(), "Invalid profile: Profile has no 'name' or 'displayName' field");
}

#[test]
fn recovered_members_come_in_key_order() {
    let raw = "{\"name\": \"B\", \"oops\": , \"icon\": \"rocket\"";
    let m = read_profile_file(raw).ok().expect("recovered");
    let keys: Vec<&str> = m.iter().map(|(k, _)| k.as_str()).collect();
    assert_eq!(keys, vec!["icon", "name"]);
    assert_eq!(as_str(get(&m, "icon")), Some("rocket"));
}

#[test]
fn jsonc_double_encoding_round_trips_through_serde() {
    let inner = "{\n  // tabs\n  \"editor.tabSize\": 4,\n}";
    let mut obj = serde_json::Map::new();
    obj.insert("settings".to_string(), serde_json::Value::String(inner.to_string()));
    let settings_val = serde_json::to_string(&serde_json::Value::Object(obj)).unwrap();
    let mut top = serde_json::Map::new();
    top.insert("name".to_string(), serde_json::Value::String("RT".to_string()));
    top.insert("settings".to_string(), serde_json::Value::String(settings_val));
    let raw = serde_json::to_string(&serde_json::Value::Object(top)).unwrap();
    let pp = parse_profile(&raw).ok().expect("parse");
    assert_eq!(pp.settings_content, inner);
}

// ── read_profile_file ──────────────────────────────────────────────────────

#[test]
fn test_read_profile_default() {
    let m = read_profile_file("{\"name\":\"Example\"}").ok().expect("read profile");
    assert!(get(&m, "name").is_some());
}

#[test]
fn test_read_profile_tolerant_malformed() {
    let content = "{\n  \"name\": \"Tolerant\",\n  \"settings\": \"{\n\\\"editor.tabSize\\\": 4\n}\"\n}\n";
    let m = read_profile_file(content).ok().expect("should parse tolerant profile");
    assert_eq!(as_str(get(&m, "name")), Some("Tolerant"));
    assert!(get(&m, "settings").is_some());
    // The settings string held JSON, so it was decoded into an object.
    assert!(matches!(get(&m, "settings"), Some(Json::Object(_))));
}

// ── profile_registered / resolve_profile_dir / patch_icon ─────────────────

#[test]
fn test_profile_registered_true() {
    let mut disk = FakeDisk::default();
    let sp = fake_storage(&mut disk, "MyProfile", "-abc123");
    let text = disk.read(&sp).unwrap();
    assert!(profile_registered("MyProfile", &text));
    assert!(!profile_registered("Other", &text));
}

#[test]
fn profile_registered_on_bad_storage_is_false() {
    assert!(!profile_registered("A", "not json"));
    assert!(!profile_registered("A", "{\"userDataProfiles\": {}}"));
    assert!(!profile_registered("A", "[]"));
}

#[test]
fn test_resolve_profile_dir() {
    let mut disk = FakeDisk::default();
    let sp = fake_storage(&mut disk, "MyProfile", "-abc123");
    let profiles = PathBuf::from(ROOT).join("profiles").join("-abc123");
    let text = disk.read(&sp).unwrap();
    let dir = resolve_profile_dir("MyProfile", &sp.to_string_lossy(), &text).unwrap();
    assert_eq!(PathBuf::from(dir), profiles);
}

#[test]
fn resolved_profiles_are_registered() {
    let text = "{\"userDataProfiles\": [{\"name\": \"A\"}, {\"name\": \"B\", \"location\": \"-b\"}]}";
    for name in ["A", "B", "C"] {
        if resolve_profile_dir(name, "/u/globalStorage/storage.json", text).is_some() {
            assert!(profile_registered(name, text));
        }
    }
    assert_eq!(resolve_profile_dir("B", "/u/globalStorage/storage.json", text).as_deref(), Some("/u/profiles/-b"));
    assert_eq!(resolve_profile_dir("A", "/u/globalStorage/storage.json", text), None);
    assert_eq!(resolve_profile_dir("B", "storage.json", text), None);
}

#[test]
fn test_patch_icon() {
    let mut disk = FakeDisk::default();
    let sp = fake_storage(&mut disk, "MyProfile", "-abc123");
    let new_text = patch_icon("MyProfile", "rocket", &disk.read(&sp).unwrap()).unwrap();
    disk.write(&sp, new_text).unwrap();
    let data: serde_json::Value = serde_json::from_str(&disk.read(&sp).unwrap()).unwrap();
    let icon = data["userDataProfiles"][0]["icon"].as_str().unwrap();
    assert_eq!(icon, "rocket");
}

#[test]
fn patch_icon_first_match_only_and_errors() {
    let text = "{\"userDataProfiles\": [{\"name\": \"A\"}, {\"name\": \"A\", \"icon\": \"x\"}], \"n\": 1.5}";
    let out = patch_icon("A", "gear", text).unwrap();
    let data: serde_json::Value = serde_json::from_str(&out).unwrap();
    assert_eq!(data["userDataProfiles"][0]["icon"].as_str(), Some("gear"));
    assert_eq!(data["userDataProfiles"][1]["icon"].as_str(), Some("x"));
    assert_eq!(data["n"].as_f64(), Some(1.5));
    assert!(matches!(patch_icon("A", "gear", "{oops"), Err(ImportError::Json(_))));
    let same = patch_icon("Z", "gear", text).unwrap();
    let data2: serde_json::Value = serde_json::from_str(&same).unwrap();
    assert!(data2["userDataProfiles"][0].get("icon").is_none());
}

// ── import_profile ─────────────────────────────────────────────────────────

#[test]
fn test_import_profile_basic() {
    let mut disk = FakeDisk::default();
    let (storage, profile_dir) = setup_fake_vscode(&mut disk, "TestProfile");
    let prof = write_profile(&mut disk, "p.code-profile", one_extension_profile("TestProfile", "foo.bar", "Foo"));

    let mut installed: Vec<(String, String)> = vec![];
    let report = run_import(
        &mut disk,
        &prof,
        &storage,
        |_name: &str| Ok(()),
        |name: &str, ext: &str| {
            installed.push((name.to_string(), ext.to_string()));
            true
        },
        |_: &str| "overwrite".to_string(),
        |_: &str| "skip".to_string(),
        None,
    )
    .expect("import");

    assert_eq!(report.profile, "TestProfile");
    assert_eq!(report.installed.len(), 1);
    assert_eq!(report.installed[0], "foo.bar");
    assert!(installed.iter().any(|(n, _)| n == "TestProfile"));
    assert!(disk.read(&profile_dir.join("settings.json")).is_none());
}

#[test]
fn test_import_profile_writes_settings() {
    let mut disk = FakeDisk::default();
    let (storage, profile_dir) = setup_fake_vscode(&mut disk, "SettingsProfile");
    let inner_jsonc = r#"{"editor.tabSize": 2}"#;
    let prof = write_profile(&mut disk, "s.code-profile", settings_profile("SettingsProfile", inner_jsonc));

    run_import(
        &mut disk,
        &prof,
        &storage,
        |_| Ok(()),
        |_, _| true,
        |_| "overwrite".to_string(),
        |_| "skip".to_string(),
        None,
    )
    .expect("import");

    let written = disk.read(&profile_dir.join("settings.json")).unwrap();
    assert_eq!(written, inner_jsonc);
}

#[test]
fn test_import_profile_cancel() {
    let mut disk = FakeDisk::default();
    let (storage, _) = setup_fake_vscode(&mut disk, "ExistingProfile");
    let prof = write_profile(&mut disk, "e.code-profile", r#"{"name": "ExistingProfile"}"#.to_string());

    let r = run_import(
        &mut disk,
        &prof,
        &storage,
        |_| Ok(()),
        |_, _| true,
        |_| "cancel".to_string(),
        |_| "skip".to_string(),
        None,
    );
    assert!(r.is_err());
    assert!(r.unwrap_err().message().contains("cancelled"));
}

#[test]
fn test_import_profile_ext_abort() {
    let mut disk = FakeDisk::default();
    let (storage, _) = setup_fake_vscode(&mut disk, "AbortProfile");
    let prof = write_profile(&mut disk, "ab.code-profile", one_extension_profile("AbortProfile", "bad.ext", "Bad"));

    let r = run_import(
        &mut disk,
        &prof,
        &storage,
        |_| Ok(()),
        |_, _| false,
        |_| "overwrite".to_string(),
        |_| "abort".to_string(),
        None,
    );
    assert!(r.is_err());
    assert_eq!(r.unwrap_err().message(), "Invalid profile: Aborted during extension install: bad.ext");
}

#[test]
fn test_import_profile_ext_retry_then_succeed() {
    let mut disk = FakeDisk::default();
    let (storage, _) = setup_fake_vscode(&mut disk, "RetryProfile");
    let prof = write_profile(&mut disk, "r.code-profile", one_extension_profile("RetryProfile", "retry.ext", "Retry"));

    let mut calls = 0usize;
    let r = run_import(
        &mut disk,
        &prof,
        &storage,
        |_| Ok(()),
        move |_, _| {
            calls += 1;
            calls > 1
        },
        |_| "overwrite".to_string(),
        |_| "retry".to_string(),
        None,
    );
    assert!(r.is_ok());
    assert_eq!(r.unwrap().installed[0], "retry.ext");
}

#[test]
fn test_import_profile_ext_installer_receives_profile_name() {
    let mut disk = FakeDisk::default();
    let (storage, _) = setup_fake_vscode(&mut disk, "NamedProfile");
    let prof = write_profile(&mut disk, "np.code-profile", one_extension_profile("NamedProfile", "x.y", "XY"));

    let mut seen_name = String::new();
    let mut seen_ext = String::new();
    run_import(
        &mut disk,
        &prof,
        &storage,
        |_| Ok(()),
        |name, ext| {
            seen_name = name.to_string();
            seen_ext = ext.to_string();
            true
        },
        |_| "overwrite".to_string(),
        |_| "skip".to_string(),
        None,
    )
    .unwrap();
    assert_eq!(seen_name, "NamedProfile");
    assert_eq!(seen_ext, "x.y");
}

#[test]
fn import_writes_settings_to_hashed_dir() {
    let mut disk = FakeDisk::default();
    let (storage, profile_dir) = setup_fake_vscode(&mut disk, "WithSettings");
    let inner_jsonc = r#"{"editor.tabSize": 4}"#;
    let prof = write_profile(&mut disk, "ws.code-profile", settings_profile("WithSettings", inner_jsonc));

    run_import(
        &mut disk,
        &prof,
        &storage,
        |_| Ok(()),
        |_, _| true,
        |_| "overwrite".to_string(),
        |_| "skip".to_string(),
        None,
    )
    .expect("import");

    assert_eq!(profile_dir, PathBuf::from(ROOT).join("profiles").join("-fakehash"));
    let written = disk.read(&profile_dir.join("settings.json")).unwrap();
    assert_eq!(written, inner_jsonc);
}

#[test]
fn ext_installer_receives_profile_name_and_id() {
    let mut disk = FakeDisk::default();
    let (storage, _) = setup_fake_vscode(&mut disk, "ExtNameCheck");
    let prof = write_profile(&mut disk, "enc.code-profile", one_extension_profile("ExtNameCheck", "pub.ext", "Pub"));

    let mut seen = Vec::<(String, String)>::new();
    run_import(
        &mut disk,
        &prof,
        &storage,
        |_| Ok(()),
        |name, ext| {
            seen.push((name.to_string(), ext.to_string()));
            true
        },
        |_| "overwrite".to_string(),
        |_| "skip".to_string(),
        None,
    )
    .expect("import");

    assert_eq!(seen, vec![("ExtNameCheck".to_string(), "pub.ext".to_string())]);
}

#[test]
fn profile_discovery_after_import() {
    let mut disk = FakeDisk::default();
    let name = "VSCodeDetectTest";
    let storage = fake_storage(&mut disk, name, "-detesthash");
    disk.dirs.insert(PathBuf::from(ROOT).join("profiles"));
    disk.dirs.insert(PathBuf::from(ROOT).join("profiles").join("-detesthash"));
    let prof = write_profile(&mut disk, "real.code-profile", format!("{{\"extensions\":[],\"name\":\"{}\"}}", name));

    let report = run_import(
        &mut disk,
        &prof,
        &storage,
        |_| Ok(()),
        |_, _| true,
        |_| "overwrite".to_string(),
        |_| "skip".to_string(),
        None,
    )
    .expect("import");
    assert!(report.installed.is_empty());

    let text = disk.read(&storage).unwrap();
    assert!(profile_registered(name, &text), "profile should be registered");
    let dir = resolve_profile_dir(name, &storage.to_string_lossy(), &text).expect("must resolve profile dir");
    assert!(disk.dirs.contains(Path::new(&dir)), "profile dir must exist: {}", dir);
}

#[test]
fn profile_discovery_with_settings_written() {
    let mut disk = FakeDisk::default();
    let storage = fake_storage(&mut disk, "WithSettingsProfile", "-sethash");
    disk.dirs.insert(PathBuf::from(ROOT).join("profiles"));
    disk.dirs.insert(PathBuf::from(ROOT).join("profiles").join("-sethash"));
    let inner_jsonc = r#"{"editor.fontSize": 14}"#;
    let prof = write_profile(&mut disk, "ws.code-profile", settings_profile("WithSettingsProfile", inner_jsonc));

    run_import(
        &mut disk,
        &prof,
        &storage,
        |_| Ok(()),
        |_, _| true,
        |_| "overwrite".to_string(),
        |_| "skip".to_string(),
        None,
    )
    .expect("import");

    let text = disk.read(&storage).unwrap();
    let dir = resolve_profile_dir("WithSettingsProfile", &storage.to_string_lossy(), &text).unwrap();
    let settings = disk.read(&Path::new(&dir).join("settings.json")).unwrap();
    assert_eq!(settings, inner_jsonc);
}

#[test]
fn cli_dry_run_prints_imported() {
    let mut disk = FakeDisk::default();
    let (storage, _) = setup_fake_vscode(&mut disk, "CliTest");
    let prof = write_profile(&mut disk, "cli.code-profile", one_extension_profile("CliTest", "a.b", "AB"));

    // A dry run installs nothing and reports every extension as installed.
    let report = run_import(
        &mut disk,
        &prof,
        &storage,
        |_| Ok(()),
        |_, _| {
            let (mut s, a) = start_install(120, true);
            assert_eq!(a, InstallAction::Notice);
            s.step(InstallEvent::Continue) == InstallAction::Finish(true)
        },
        |_| "overwrite".to_string(),
        |_| "skip".to_string(),
        None,
    )
    .expect("import");
    assert_eq!(report.profile, "CliTest");
    assert_eq!(report.installed, vec!["a.b"]);
}

#[test]
fn cli_import_dry_run() {
    let mut disk = FakeDisk::default();
    let storage = fake_storage(&mut disk, "DryImport", "-jjj");
    disk.dirs.insert(PathBuf::from(ROOT).join("profiles"));
    disk.dirs.insert(PathBuf::from(ROOT).join("profiles").join("-jjj"));
    let prof = write_profile(&mut disk, "test.code-profile", one_extension_profile("DryImport", "foo.bar", "Foo"));

    let mut notices = 0;
    let report = run_import(
        &mut disk,
        &prof,
        &storage,
        |_| Ok(()),
        |_, _| {
            let (mut s, a) = start_install(120, true);
            if a == InstallAction::Notice {
                notices += 1;
            }
            s.step(InstallEvent::Continue) == InstallAction::Finish(true)
        },
        |_| "overwrite".to_string(),
        |_| "skip".to_string(),
        None,
    )
    .expect("import");
    assert_eq!(notices, 1);
    assert_eq!(report.profile, "DryImport");
}

#[test]
fn importer_uses_code_cli_for_ext_install() {
    let mut disk = FakeDisk::default();
    let storage = fake_storage(&mut disk, "CodeCliProfile", "-fakeclitest");
    disk.dirs.insert(PathBuf::from(ROOT).join("profiles"));
    disk.dirs.insert(PathBuf::from(ROOT).join("profiles").join("-fakeclitest"));
    let prof = write_profile(&mut disk, "p.code-profile", one_extension_profile("CodeCliProfile", "foo.bar", "Foo Bar"));

    let mut calls: Vec<Vec<String>> = Vec::new();
    run_import(
        &mut disk,
        &prof,
        &storage,
        |_| Ok(()),
        |name, ext| {
            calls.push(install_command_args(name, ext));
            true
        },
        |_| "overwrite".to_string(),
        |_| "skip".to_string(),
        None,
    )
    .expect("import");

    let log = calls.iter().map(|c| c.join(" ")).collect::<Vec<_>>().join("\n");
    assert!(log.contains("--profile") && log.contains("CodeCliProfile"), "expected --profile CodeCliProfile in log: {}", log);
    assert!(log.contains("--install-extension") && log.contains("foo.bar"), "expected --install-extension foo.bar in log: {}", log);
    assert!(log.contains("--force"), "expected --force in log: {}", log);
}

#[test]
fn import_skips_unknown_answers_and_writes_report() {
    let mut disk = FakeDisk::default();
    let (storage, profile_dir) = setup_fake_vscode(&mut disk, "Rep");
    let prof = write_profile(
        &mut disk,
        "rep.code-profile",
        "{\"name\":\"Rep\",\"icon\":\"beaker\",\"extensions\":[\"ok.one\",\"bad.two\"]}".to_string(),
    );
    let report_path = PathBuf::from("/fake/report.json");
    let report = run_import(
        &mut disk,
        &prof,
        &storage,
        |_| Err("should not create".to_string()),
        |_, ext| ext == "ok.one",
        |_| "overwrite".to_string(),
        |_| "whatever".to_string(),
        Some(&report_path),
    )
    .unwrap();
    assert_eq!(report.installed, vec!["ok.one"]);
    assert_eq!(report.skipped, vec!["bad.two"]);
    assert!(report.failed.is_empty());
    assert_eq!(report.profile_dir.as_deref().map(PathBuf::from), Some(profile_dir));
    let data: serde_json::Value = serde_json::from_str(&disk.read(&storage).unwrap()).unwrap();
    assert_eq!(data["userDataProfiles"][0]["icon"].as_str(), Some("beaker"));
    let written: serde_json::Value = serde_json::from_str(&disk.read(&report_path).unwrap()).unwrap();
    assert_eq!(written["profile"].as_str(), Some("Rep"));
    assert_eq!(written["installed"][0].as_str(), Some("ok.one"));
    assert_eq!(written["skipped"][0].as_str(), Some("bad.two"));
    assert_eq!(written["failed"].as_array().map(|a| a.len()), Some(0));
    assert!(written["profile_dir"].as_str().unwrap().ends_with("-fakehash"));
}

#[test]
fn import_creates_missing_profile_and_reports_failures() {
    let mut disk = FakeDisk::default();
    let (storage, _) = setup_fake_vscode(&mut disk, "Other");
    let prof = write_profile(&mut disk, "new.code-profile", "{\"name\":\"NewOne\"}".to_string());
    let mut created = Vec::new();
    let r = run_import(
        &mut disk,
        &prof,
        &storage,
        |n: &str| {
            created.push(n.to_string());
            Err("no display".to_string())
        },
        |_, _| true,
        |_| "overwrite".to_string(),
        |_| "skip".to_string(),
        None,
    );
    assert_eq!(created, vec!["NewOne"]);
    assert_eq!(r.unwrap_err().message(), "Invalid profile: Profile creation failed: no display");

    let r = run_import(
        &mut disk,
        &prof,
        &storage,
        |_| Ok(()),
        |_, _| true,
        |_| "overwrite".to_string(),
        |_| "skip".to_string(),
        None,
    );
    assert_eq!(
        r.unwrap_err().message(),
        "Invalid profile: Could not find profile directory for 'NewOne' in storage.json"
    );
}

#[test]
fn import_fails_when_profile_dir_missing() {
    let mut disk = FakeDisk::default();
    let storage = fake_storage(&mut disk, "NoDir", "-missing");
    let prof = write_profile(&mut disk, "nd.code-profile", "{\"name\":\"NoDir\"}".to_string());
    let r = run_import(
        &mut disk,
        &prof,
        &storage,
        |_| Ok(()),
        |_, _| true,
        |_| "overwrite".to_string(),
        |_| "skip".to_string(),
        None,
    );
    assert_eq!(
        r.unwrap_err().message(),
        "Invalid profile: Profile directory does not exist: /fake/User/profiles/-missing"
    );
}

#[test]
fn import_settings_write_failure_is_io_error() {
    let mut disk = FakeDisk::default();
    // The profile's directory is reported to exist but cannot be written to.
    let storage = fake_storage(&mut disk, "Ro", "-gone");
    let prof = write_profile(&mut disk, "ro.code-profile", settings_profile("Ro", "{}"));
    let (mut session, mut action) = import_profile(
        parse_profile(&disk.read(&prof).unwrap()).unwrap(),
        storage.to_string_lossy().into_owned(),
        None,
    );
    let mut outcome = None;
    for _ in 0..20 {
        let event = match action {
            ImportAction::ReadStorage => ImportEvent::StorageRead(disk.read(&storage)),
            ImportAction::PromptOverwrite(_) => ImportEvent::Answer("overwrite".to_string()),
            ImportAction::CheckDirectory(_) => ImportEvent::DirectoryChecked(true),
            ImportAction::WriteFile { path, contents } => ImportEvent::Written(disk.write(Path::new(&path), contents)),
            ImportAction::Finish(r) => {
                outcome = Some(r);
                break;
            }
            _ => panic!("unexpected action"),
        };
        action = session.step(event);
    }
    let err = outcome.unwrap().unwrap_err();
    assert!(matches!(err, ImportError::Io(_)));
    assert!(err.message().starts_with("I/O error: "));
}

#[test]
fn import_default_profile_uses_user_dir_without_creating() {
    let mut disk = FakeDisk::default();
    let storage = fake_storage(&mut disk, "Whatever", "-x");
    let inner = "{\"a\": 1}";
    let prof = write_profile(&mut disk, "d.code-profile", settings_profile("DEFAULT", inner));
    let report = run_import(
        &mut disk,
        &prof,
        &storage,
        |_| panic!("the default profile is never created"),
        |_, _| true,
        |_| panic!("the default profile is never confirmed"),
        |_| "skip".to_string(),
        None,
    )
    .unwrap();
    assert_eq!(PathBuf::from(report.profile_dir.unwrap()), PathBuf::from(ROOT));
    assert_eq!(disk.read(&PathBuf::from(ROOT).join("settings.json")).unwrap(), inner);
}

// ── escape_newlines_in_strings ─────────────────────────────────────────────

#[test]
fn test_escape_newlines_in_strings() {
    let raw = "{\"a\": \"line1\nline2\"}";
    let out = escape_newlines_in_strings(raw);
    assert!(out.contains("\\n"));
}

#[test]
fn escape_newlines_exact_results() {
    assert_eq!(escape_newlines_in_strings("{\"a\": \"x\r\ny\"}\n"), "{\"a\": \"x\\ny\"}\n");
    assert_eq!(escape_newlines_in_strings("\"a\\\"\nb\"\r"), "\"a\\\"\\nb\"\r");
    assert_eq!(escape_newlines_in_strings("\"\\\n\""), "\"\\\\n\"");
    assert_eq!(escape_newlines_in_strings("no breaks \"here\""), "no breaks \"here\"");
}

#[test]
fn escape_newlines_is_idempotent_on_examples() {
    for s in ["{\"a\": \"l1\nl2\r\nl3\rl4\"}\n", "\"\\\n\"", "plain\n", "\"open\n"] {
        let once = escape_newlines_in_strings(s);
        assert_eq!(escape_newlines_in_strings(&once), once);
    }
}

// ── extract_ext_id ─────────────────────────────────────────────────────────

fn obj(members: Vec<(&str, Json)>) -> Json {
    Json::Object(members.into_iter().map(|(k, v)| (k.to_string(), v)).collect())
}

fn jstr(s: &str) -> Json {
    Json::Str(s.to_string())
}

#[test]
fn test_extract_ext_id_varieties() {
    assert_eq!(extract_ext_id(&jstr("a.b")).as_deref(), Some("a.b"));
    assert_eq!(extract_ext_id(&obj(vec![("identifier", obj(vec![("id", jstr("x.y"))]))])).as_deref(), Some("x.y"));
    assert_eq!(extract_ext_id(&obj(vec![("id", jstr("z"))])).as_deref(), Some("z"));
    assert_eq!(extract_ext_id(&Json::Null), None);
}

#[test]
fn extract_ext_id_blank_and_fallbacks() {
    assert_eq!(extract_ext_id(&jstr("  ")).as_deref(), Some(""));
    assert_eq!(
        extract_ext_id(&obj(vec![("identifier", obj(vec![("id", jstr("  "))])), ("id", jstr(" w "))])).as_deref(),
        Some("w")
    );
    assert_eq!(extract_ext_id(&obj(vec![("identifier", jstr("x")), ("id", jstr(" "))])), None);
    assert_eq!(extract_ext_id(&Json::Bool(true)), None);
}
