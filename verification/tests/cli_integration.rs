use std::path::PathBuf;

use vscode_profile_importer::folder::make_safe_basename;
use vscode_profile_importer::storage::{profile_registered, resolve_profile_dir};

const STORAGE_JSON: &str = "/fake/vscode/globalStorage/storage.json";

/// The text of a minimal `storage.json` with the profile registered at
/// location `-fakehash`.
fn fake_vscode_env(profile_name: &str) -> String {
    format!(
        "{{\n  \"userDataProfiles\": [\n    {{\n      \"location\": \"-fakehash\",\n      \"name\": \"{}\"\n    }}\n  ]\n}}",
        profile_name
    )
}

#[test]
fn cli_folder_name_sanitization() {
    assert_eq!(make_safe_basename("C/C++ Dev"), "C_C++ Dev");
    assert!(make_safe_basename("Weird / Name: ☃").starts_with("Weird"));
}

#[test]
fn profile_registered_detects_existing() {
    let text = fake_vscode_env("DetectMe");
    assert!(profile_registered("DetectMe", &text));
    assert!(!profile_registered("NotThere", &text));
}

#[test]
fn resolve_profile_dir_finds_hash_dir() {
    let text = fake_vscode_env("HashDir");
    let dir = PathBuf::from(resolve_profile_dir("HashDir", STORAGE_JSON, &text).unwrap());
    assert_eq!(dir, PathBuf::from("/fake/vscode/profiles/-fakehash"));
    assert!(dir.to_str().unwrap().ends_with("-fakehash"));
}
