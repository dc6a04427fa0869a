use vscode_profile_importer::manage::{
    extension_count, is_default_profile, known_profile, list_extensions_args, list_profiles, parse_extension_list,
    start_remove, start_uninstall, uninstall_extension_args, ManageAction, ManageEvent,
};
use vscode_profile_importer::prompt::interpret_yes_answer;

fn storage(profiles: &[(&str, &str)]) -> String {
    let entries: Vec<String> = profiles
        .iter()
        .map(|(name, loc)| format!("{{\"name\": \"{}\", \"location\": \"{}\"}}", name, loc))
        .collect();
    format!("{{\"userDataProfiles\": [{}]}}", entries.join(", "))
}

/// A fake `code` command: the extensions it lists, and every call made.
struct FakeCode {
    installed: Vec<String>,
    log: Vec<Vec<String>>,
}

impl FakeCode {
    fn new(installed: &[&str]) -> Self {
        FakeCode { installed: installed.iter().map(|s| s.to_string()).collect(), log: Vec::new() }
    }

    fn run(&mut self, args: Vec<String>) -> Option<String> {
        self.log.push(args.clone());
        if args.iter().any(|a| a == "--list-extensions") {
            Some(self.installed.iter().map(|e| format!("{}\n", e)).collect())
        } else {
            Some(String::new())
        }
    }

    fn called_with(&self, flag: &str) -> bool {
        self.log.iter().any(|call| call.iter().any(|a| a == flag))
    }
}

/// What a management session printed, asked, and how it finished.
struct Outcome {
    notices: Vec<String>,
    questions: Vec<String>,
    result: Result<String, String>,
}

/// Runs a session step by step: `step` is the session's own `step`.
fn drive(
    first: ManageAction,
    mut step: impl FnMut(ManageEvent) -> ManageAction,
    storage_text: &str,
    code: &mut FakeCode,
    mut answer: impl FnMut(&str) -> bool,
) -> Outcome {
    let mut notices = Vec::new();
    let mut questions = Vec::new();
    let mut action = first;
    loop {
        let event = match action {
            ManageAction::ReadStorage => ManageEvent::StorageRead(Some(storage_text.to_string())),
            ManageAction::RunCode(args) => ManageEvent::CodeRan(code.run(args)),
            ManageAction::Confirm(q) => {
                let yes = answer(&q);
                questions.push(q);
                ManageEvent::Answer(yes)
            }
            ManageAction::Notice(n) => {
                notices.push(n);
                ManageEvent::Continue
            }
            ManageAction::Finish(result) => return Outcome { notices, questions, result },
        };
        action = step(event);
    }
}

fn remove(name: &str, ext: &str, force: bool, dry_run: bool, storage_text: &str, code: &mut FakeCode) -> Outcome {
    let (mut s, a) = start_remove(name.to_string(), ext.to_string(), force, dry_run);
    drive(a, |e| s.step(e), storage_text, code, |_| true)
}

fn uninstall(
    name: &str,
    force: bool,
    dry_run: bool,
    storage_text: &str,
    code: &mut FakeCode,
    answer: impl FnMut(&str) -> bool,
) -> Outcome {
    let (mut s, a) = start_uninstall(name.to_string(), force, dry_run);
    drive(a, |e| s.step(e), storage_text, code, answer)
}

// ── list ───────────────────────────────────────────────────────────────────

#[test]
fn cli_list_shows_profiles() {
    let text = storage(&[("WebDev", "-aaa"), ("RustDev", "-bbb")]);
    let rows = list_profiles(&text);
    let names: Vec<&str> = rows.iter().map(|r| r.name.as_str()).collect();
    assert_eq!(names, vec!["Default", "WebDev", "RustDev"]);
    assert!(rows[0].is_default);
    assert_eq!(rows[1].location.as_deref(), Some("-aaa"));
    assert_eq!(extension_count(r#"[{"id": "esbenp.prettier-vscode"}, {"id": "dbaeumer.vscode-eslint"}]"#), 2);
    assert_eq!(extension_count(r#"[{"id": "rust-lang.rust-analyzer"}]"#), 1);
}

#[test]
fn cli_list_empty_storage() {
    let rows = list_profiles(&storage(&[]));
    assert_eq!(rows.len(), 1);
    assert_eq!(rows[0].name, "Default");
}

#[test]
fn list_skips_nameless_entries_and_reads_icons() {
    let text = r#"{"userDataProfiles": [{"location": "-x"}, {"name": "Py", "icon": "beaker"}]}"#;
    let rows = list_profiles(text);
    assert_eq!(rows.len(), 2);
    assert_eq!(rows[1].name, "Py");
    assert_eq!(rows[1].icon, "beaker");
    assert_eq!(rows[1].location, None);
    assert_eq!(list_profiles("not json").len(), 1);
    assert_eq!(extension_count("{}"), 0);
    assert_eq!(extension_count("oops"), 0);
}

// ── extensions ─────────────────────────────────────────────────────────────

#[test]
fn cli_extensions_lists_installed() {
    let text = storage(&[("MyProfile", "-ccc")]);
    assert!(known_profile("MyProfile", &Some(text)));
    assert_eq!(list_extensions_args("MyProfile"), vec!["--profile", "MyProfile", "--list-extensions"]);
    assert_eq!(parse_extension_list("foo.bar\nbaz.qux\n"), vec!["foo.bar", "baz.qux"]);
}

#[test]
fn cli_extensions_unknown_profile_errors() {
    assert!(!known_profile("NonExistent", &Some(storage(&[]))));
    assert!(!known_profile("NonExistent", &None));
}

#[test]
fn default_profile_is_known_and_selected_without_flag() {
    assert!(is_default_profile("Default"));
    assert!(is_default_profile("DEFAULT"));
    assert!(!is_default_profile("Defaults"));
    assert!(known_profile("default", &None));
    assert_eq!(list_extensions_args("Default"), vec!["--list-extensions"]);
    assert_eq!(uninstall_extension_args("Default", "a.b"), vec!["--uninstall-extension", "a.b"]);
    assert_eq!(uninstall_extension_args("P", "a.b"), vec!["--profile", "P", "--uninstall-extension", "a.b"]);
}

#[test]
fn extension_listing_is_trimmed_and_skips_blank_lines() {
    assert_eq!(parse_extension_list("  a.b \r\n\n\tc.d\n   \n"), vec!["a.b", "c.d"]);
    assert_eq!(parse_extension_list(""), Vec::<String>::new());
    assert_eq!(parse_extension_list("x.y"), vec!["x.y"]);
}

// ── remove ─────────────────────────────────────────────────────────────────

#[test]
fn cli_remove_dry_run() {
    let text = storage(&[("RemoveProfile", "-ddd")]);
    let mut code = FakeCode::new(&["esbenp.prettier-vscode"]);
    let out = remove("RemoveProfile", "esbenp.prettier-vscode", true, true, &text, &mut code);
    let line = out.result.unwrap();
    assert!(line.contains("[dry-run]"));
    assert_eq!(line, "[dry-run] would uninstall esbenp.prettier-vscode from profile 'RemoveProfile'");
    assert!(!code.called_with("--uninstall-extension"));
}

#[test]
fn cli_remove_calls_uninstall_extension() {
    let text = storage(&[("UninstP", "-eee")]);
    let mut code = FakeCode::new(&["foo.bar"]);
    let out = remove("UninstP", "foo.bar", true, false, &text, &mut code);
    assert_eq!(out.result, Ok("Removed foo.bar from profile 'UninstP'.".to_string()));
    assert!(out.questions.is_empty());
    assert_eq!(code.log.last().unwrap(), &vec!["--profile", "UninstP", "--uninstall-extension", "foo.bar"]);
}

#[test]
fn cli_remove_unknown_extension_errors() {
    let text = storage(&[("P", "-fff")]);
    let mut code = FakeCode::new(&["foo.bar"]);
    let out = remove("P", "not.installed", true, false, &text, &mut code);
    assert_eq!(out.result, Err("Extension 'not.installed' is not installed in profile 'P'.".to_string()));
    assert!(!code.called_with("--uninstall-extension"));
}

#[test]
fn remove_hints_near_matches_and_asks_without_force() {
    let text = storage(&[("P", "-p")]);
    let mut code = FakeCode::new(&["Foo.Bar-Pro", "other.ext", "foo.bar"]);
    let out = remove("P", "FOO.BAR", true, false, &text, &mut code);
    assert_eq!(
        out.result,
        Err("Extension 'FOO.BAR' is not installed in profile 'P'. Did you mean: Foo.Bar-Pro, foo.bar?".to_string())
    );

    let mut code = FakeCode::new(&["foo.bar"]);
    let (mut s, a) = start_remove("P".to_string(), "foo.bar".to_string(), false, false);
    let out = drive(a, |e| s.step(e), &text, &mut code, |_| false);
    assert_eq!(out.questions, vec!["Uninstall foo.bar from profile 'P'? [y/N] "]);
    assert_eq!(out.result, Ok("Cancelled.".to_string()));
    assert!(!code.called_with("--uninstall-extension"));

    let out = remove("Nobody", "foo.bar", true, false, &text, &mut code);
    assert_eq!(out.result, Err("Profile 'Nobody' not found in storage.json".to_string()));
}

// ── uninstall ──────────────────────────────────────────────────────────────

#[test]
fn cli_uninstall_dry_run_force() {
    let text = storage(&[("BulkP", "-ggg")]);
    let mut code = FakeCode::new(&["a.b", "c.d"]);
    let out = uninstall("BulkP", true, true, &text, &mut code, |_| true);
    assert!(out.notices.iter().all(|n| n.contains("[dry-run]")));
    assert!(out.notices.iter().any(|n| n.contains("a.b")));
    assert!(out.notices.iter().any(|n| n.contains("c.d")));
    assert_eq!(
        out.result,
        Ok("[dry-run] 2 extension(s) would be uninstalled from profile 'BulkP'.".to_string())
    );
    assert!(out.questions.is_empty());
    assert!(!code.called_with("--uninstall-extension"));
}

#[test]
fn cli_uninstall_force_calls_uninstall_for_each() {
    let text = storage(&[("BulkReal", "-hhh")]);
    let mut code = FakeCode::new(&["ext.one", "ext.two"]);
    let out = uninstall("BulkReal", true, false, &text, &mut code, |_| interpret_yes_answer("y\n"));
    assert_eq!(out.questions, vec!["Uninstall all 2 extensions from profile 'BulkReal'? [y/N] "]);
    let uninstalled: Vec<&Vec<String>> =
        code.log.iter().filter(|call| call.iter().any(|a| a == "--uninstall-extension")).collect();
    assert_eq!(uninstalled.len(), 2);
    assert_eq!(uninstalled[0], &vec!["--profile", "BulkReal", "--uninstall-extension", "ext.one"]);
    assert_eq!(uninstalled[1], &vec!["--profile", "BulkReal", "--uninstall-extension", "ext.two"]);
    assert_eq!(out.result, Ok("Uninstalled 2 of 2 extension(s) from profile 'BulkReal'.".to_string()));
}

#[test]
fn cli_uninstall_no_extensions_exits_cleanly() {
    let text = storage(&[("EmptyP", "-iii")]);
    let mut code = FakeCode::new(&[]);
    let out = uninstall("EmptyP", true, false, &text, &mut code, |_| true);
    let line = out.result.unwrap();
    assert!(line.contains("Nothing to do") || line.contains("No extensions"));
}

#[test]
fn uninstall_asks_for_each_without_force_and_reports_failures() {
    let text = storage(&[("P", "-p")]);
    let mut code = FakeCode::new(&["a.a", "b.b", "c.c"]);
    let out = uninstall("P", false, false, &text, &mut code, |q| !q.contains("b.b"));
    assert_eq!(out.questions.len(), 3);
    assert_eq!(out.result, Ok("Uninstalled 2 of 3 extension(s) from profile 'P'.".to_string()));

    // A removal that fails makes the whole uninstallation fail.
    let (mut s, a) = start_uninstall("P".to_string(), true, false);
    let mut calls = 0;
    let mut action = a;
    let result = loop {
        let event = match action {
            ManageAction::ReadStorage => ManageEvent::StorageRead(Some(text.clone())),
            ManageAction::RunCode(args) => {
                calls += 1;
                if args.iter().any(|x| x == "--list-extensions") {
                    ManageEvent::CodeRan(Some("x.x\ny.y\n".to_string()))
                } else if args.iter().any(|x| x == "y.y") {
                    ManageEvent::CodeRan(None)
                } else {
                    ManageEvent::CodeRan(Some(String::new()))
                }
            }
            ManageAction::Confirm(_) => ManageEvent::Answer(interpret_yes_answer(" YES ")),
            ManageAction::Notice(_) => ManageEvent::Continue,
            ManageAction::Finish(r) => break r,
        };
        action = s.step(event);
    };
    assert_eq!(calls, 3);
    assert_eq!(result, Err("Failed to uninstall: y.y".to_string()));
    assert!(!interpret_yes_answer("n"));
    assert!(!interpret_yes_answer(""));
}
