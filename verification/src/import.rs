//! The import of a decoded profile, as a state machine.
//!
//! [`import_profile`] starts an import and names the first piece of outside
//! work to do; the caller performs it and hands the outcome to
//! [`ImportSession::step`], which decides what comes next, until the machine
//! finishes with the import report or an error.

use vstd::prelude::*;
use crate::json::{Json, JsonView, json_view, obj_insert, spec_json_pretty, json_to_pretty_string, object_insert, fields_view, lemma_object_view, lemma_array_view, items_view};
use crate::profile::{ImportError, ImportErrorView, ParsedProfile, ParsedProfileView};
use crate::storage::{
    registered_in, profile_dir_of, patched_storage, spec_path_parent, spec_path_join,
    profile_registered, resolve_profile_dir, patch_icon, path_parent, path_join,
};
use crate::text::{opt_view, same_text, spec_to_lowercase, to_lowercase};

verus! {

/// What an import did, as the report file records it.
#[derive(Debug)]
pub struct ImportReport {
    /// Name of the profile imported into.
    pub profile: String,
    /// Directory of the profile, once known.
    pub profile_dir: Option<String>,
    /// Extensions installed, in order.
    pub installed: Vec<String>,
    /// Extensions skipped after a failed install, in order.
    pub skipped: Vec<String>,
    /// The extension whose failure aborted the import.
    pub failed: Vec<String>,
    /// Path of the `settings.json` written, if any.
    pub settings_written: Option<String>,
    /// Path of the `keybindings.json` written, if any.
    pub keybindings_written: Option<String>,
}

/// The model of an [`ImportReport`].
pub struct ImportReportView {
    pub profile: Seq<char>,
    pub profile_dir: Option<Seq<char>>,
    pub installed: Seq<Seq<char>>,
    pub skipped: Seq<Seq<char>>,
    pub failed: Seq<Seq<char>>,
    pub settings_written: Option<Seq<char>>,
    pub keybindings_written: Option<Seq<char>>,
}

impl View for ImportReport {
    type V = ImportReportView;

    open spec fn view(&self) -> ImportReportView {
        ImportReportView {
            profile: self.profile@,
            profile_dir: opt_view(self.profile_dir),
            installed: self.installed.deep_view(),
            skipped: self.skipped.deep_view(),
            failed: self.failed.deep_view(),
            settings_written: opt_view(self.settings_written),
            keybindings_written: opt_view(self.keybindings_written),
        }
    }
}

/// The report of an import that has just begun for profile `name`.
pub open spec fn initial_report(name: Seq<char>) -> ImportReportView {
    ImportReportView {
        profile: name,
        profile_dir: None,
        installed: Seq::empty(),
        skipped: Seq::empty(),
        failed: Seq::empty(),
        settings_written: None,
        keybindings_written: None,
    }
}

/// JSON strings for the texts `s`.
pub open spec fn str_items(s: Seq<Seq<char>>) -> Seq<JsonView> {
    s.map_values(|x: Seq<char>| JsonView::Str(x))
}

/// `f` with the member `key` set to the string `v`, when there is one.
pub open spec fn insert_opt(f: Seq<(Seq<char>, JsonView)>, key: Seq<char>, v: Option<Seq<char>>) -> Seq<(Seq<char>, JsonView)> {
    match v {
        Some(x) => obj_insert(f, key, JsonView::Str(x)),
        None => f,
    }
}

/// The JSON object of a report: `profile`, `installed`, `skipped`, `failed`,
/// and `profile_dir`, `settings_written`, `keybindings_written` when known.
pub open spec fn report_json_view(r: ImportReportView) -> JsonView {
    let f = seq![
        ("profile"@, JsonView::Str(r.profile)),
        ("installed"@, JsonView::Array(str_items(r.installed))),
        ("skipped"@, JsonView::Array(str_items(r.skipped))),
        ("failed"@, JsonView::Array(str_items(r.failed))),
    ];
    JsonView::Object(
        insert_opt(
            insert_opt(insert_opt(f, "profile_dir"@, r.profile_dir), "settings_written"@, r.settings_written),
            "keybindings_written"@,
            r.keybindings_written,
        ),
    )
}

fn str_array(items: &Vec<String>) -> (res: Json)
    ensures
        res@ == JsonView::Array(str_items(items.deep_view())),
{
    let mut out: Vec<Json> = Vec::new();
    let mut i: usize = 0;
    while i < items.len()
        invariant
            i <= items.len(),
            out.len() == i,
            items_view(out) == str_items(items.deep_view().take(i as int)),
        decreases items.len() - i,
    {
        let c = items[i].clone();
        assert(c@ == items.deep_view()[i as int]);
        let ghost before = out@;
        out.push(Json::Str(c));
        assert(out@ == before.push(Json::Str(c)));
        assert(json_view(Json::Str(c)) == JsonView::Str(c@));
        let ghost prev = str_items(items.deep_view().take(i as int));
        i = i + 1;
        let ghost next = str_items(items.deep_view().take(i as int));
        assert forall|k: int| 0 <= k < out@.len() implies #[trigger] items_view(out)[k] == next[k] by {
            if k < out@.len() - 1 {
                assert(out@[k] == before[k]);
                assert(prev[k] == next[k]);
            }
        }
        assert(items_view(out) =~= next);
    }
    assert(items.deep_view().take(items.len() as int) =~= items.deep_view());
    proof {
        lemma_array_view(out);
    }
    Json::Array(out)
}

fn insert_opt_string(f: &mut Vec<(String, Json)>, key: &str, v: &Option<String>)
    ensures
        fields_view(*final(f)) == insert_opt(fields_view(*old(f)), key@, opt_view(*v)),
{
    match v {
        Some(x) => object_insert(f, String::from_str(key), Json::Str(x.clone())),
        None => {},
    }
}

impl ImportReport {
    /// The report as a JSON object (see [`report_json_view`]).
    pub fn to_json(&self) -> (res: Json)
        ensures
            res@ == report_json_view(self@),
    {
        let mut f: Vec<(String, Json)> = Vec::new();
        f.push((String::from_str("profile"), Json::Str(self.profile.clone())));
        f.push((String::from_str("installed"), str_array(&self.installed)));
        f.push((String::from_str("skipped"), str_array(&self.skipped)));
        f.push((String::from_str("failed"), str_array(&self.failed)));
        assert(fields_view(f) =~= seq![
            ("profile"@, JsonView::Str(self@.profile)),
            ("installed"@, JsonView::Array(str_items(self@.installed))),
            ("skipped"@, JsonView::Array(str_items(self@.skipped))),
            ("failed"@, JsonView::Array(str_items(self@.failed))),
        ]);
        insert_opt_string(&mut f, "profile_dir", &self.profile_dir);
        insert_opt_string(&mut f, "settings_written", &self.settings_written);
        insert_opt_string(&mut f, "keybindings_written", &self.keybindings_written);
        proof {
            lemma_object_view(f);
        }
        Json::Object(f)
    }
}


/// Where an import stands: each stage waits for the outcome of one action.
#[derive(Clone, Copy, PartialEq, Eq, Structural)]
pub enum ImportStage {
    /// Waiting for `storage.json`, to see whether the profile exists.
    CheckRegistration,
    /// Waiting for the answer to "overwrite the existing profile?".
    ConfirmOverwrite,
    /// Waiting for the profile to be created.
    Creating,
    /// Waiting for `storage.json`, to find the profile's directory.
    LocateDir,
    /// Waiting to learn whether the profile's directory exists.
    CheckDir,
    /// Waiting for `storage.json`, to set the profile's icon.
    ReadForIcon,
    /// Waiting for the patched `storage.json` to be written.
    WriteIcon,
    /// Waiting for the current extension to be installed.
    Install,
    /// Waiting for the answer to "skip, retry or abort?" after a failure.
    AskAfterFailure,
    /// Waiting for the current extension to be installed once more.
    Retry,
    /// Waiting for `settings.json` to be written.
    WriteSettings,
    /// Waiting for `keybindings.json` to be written.
    WriteKeybindings,
    /// Waiting for the report file to be written.
    WriteReport,
    /// The import is over.
    Finished,
}

/// Outside work that the import asks of its caller.
pub enum ImportAction {
    /// Read `storage.json` and answer with [`ImportEvent::StorageRead`].
    ReadStorage,
    /// Ask whether to overwrite the existing profile of this name; answer with
    /// [`ImportEvent::Answer`] (`"cancel"` cancels).
    PromptOverwrite(String),
    /// Create the profile of this name; answer with [`ImportEvent::Created`].
    CreateProfile(String),
    /// Check that this directory exists; answer with
    /// [`ImportEvent::DirectoryChecked`].
    CheckDirectory(String),
    /// Write this text to `storage.json`; answer with [`ImportEvent::Written`].
    WriteStorage(String),
    /// Install an extension into a profile; answer with
    /// [`ImportEvent::Installed`].
    Install { profile: String, extension: String },
    /// Ask what to do after this extension failed to install; answer with
    /// [`ImportEvent::Answer`] (`"skip"`, `"retry"` or `"abort"`).
    PromptExtensionFailure(String),
    /// Write a file; answer with [`ImportEvent::Written`].
    WriteFile { path: String, contents: String },
    /// The import is over, with this outcome.
    Finish(Result<ImportReport, ImportError>),
}

/// The outcome of an [`ImportAction`].
pub enum ImportEvent {
    /// The text of `storage.json`, or `None` when it could not be read.
    StorageRead(Option<String>),
    /// The user's answer to a prompt.
    Answer(String),
    /// The outcome of creating the profile.
    Created(Result<(), String>),
    /// Whether the directory exists.
    DirectoryChecked(bool),
    /// Whether the installation succeeded.
    Installed(bool),
    /// The outcome of writing a file.
    Written(Result<(), std::io::Error>),
}

/// The model of an [`ImportAction`].
pub enum ImportActionView {
    ReadStorage,
    PromptOverwrite(Seq<char>),
    CreateProfile(Seq<char>),
    CheckDirectory(Seq<char>),
    WriteStorage(Seq<char>),
    Install { profile: Seq<char>, extension: Seq<char> },
    PromptExtensionFailure(Seq<char>),
    WriteFile { path: Seq<char>, contents: Seq<char> },
    Finish(Result<ImportReportView, ImportErrorView>),
}

/// The model of an [`ImportEvent`].
pub enum ImportEventView {
    StorageRead(Option<Seq<char>>),
    Answer(Seq<char>),
    Created(Result<(), Seq<char>>),
    DirectoryChecked(bool),
    Installed(bool),
    Written(Result<(), std::io::Error>),
}

impl View for ImportAction {
    type V = ImportActionView;

    open spec fn view(&self) -> ImportActionView {
        match self {
            ImportAction::ReadStorage => ImportActionView::ReadStorage,
            ImportAction::PromptOverwrite(n) => ImportActionView::PromptOverwrite(n@),
            ImportAction::CreateProfile(n) => ImportActionView::CreateProfile(n@),
            ImportAction::CheckDirectory(d) => ImportActionView::CheckDirectory(d@),
            ImportAction::WriteStorage(t) => ImportActionView::WriteStorage(t@),
            ImportAction::Install { profile, extension } => ImportActionView::Install {
                profile: profile@,
                extension: extension@,
            },
            ImportAction::PromptExtensionFailure(e) => ImportActionView::PromptExtensionFailure(e@),
            ImportAction::WriteFile { path, contents } => ImportActionView::WriteFile {
                path: path@,
                contents: contents@,
            },
            ImportAction::Finish(r) => ImportActionView::Finish(
                match r {
                    Ok(rep) => Ok(rep@),
                    Err(e) => Err(e@),
                },
            ),
        }
    }
}

impl View for ImportEvent {
    type V = ImportEventView;

    open spec fn view(&self) -> ImportEventView {
        match self {
            ImportEvent::StorageRead(t) => ImportEventView::StorageRead(opt_view(*t)),
            ImportEvent::Answer(a) => ImportEventView::Answer(a@),
            ImportEvent::Created(r) => ImportEventView::Created(
                match r {
                    Ok(()) => Ok(()),
                    Err(e) => Err(e@),
                },
            ),
            ImportEvent::DirectoryChecked(b) => ImportEventView::DirectoryChecked(*b),
            ImportEvent::Installed(b) => ImportEventView::Installed(*b),
            ImportEvent::Written(r) => ImportEventView::Written(*r),
        }
    }
}

/// The model of an [`ImportSession`].
pub struct ImportSessionView {
    pub profile: ParsedProfileView,
    pub storage_json: Seq<char>,
    pub report_path: Option<Seq<char>>,
    pub is_default: bool,
    pub profile_dir: Seq<char>,
    pub stage: ImportStage,
    pub next_ext: nat,
    pub report: ImportReportView,
}

/// Whether `e` is the outcome of the action that stage `stage` waits for.
pub open spec fn awaits(stage: ImportStage, e: ImportEventView) -> bool {
    match stage {
        ImportStage::CheckRegistration | ImportStage::LocateDir | ImportStage::ReadForIcon => e is StorageRead,
        ImportStage::ConfirmOverwrite | ImportStage::AskAfterFailure => e is Answer,
        ImportStage::Creating => e is Created,
        ImportStage::CheckDir => e is DirectoryChecked,
        ImportStage::Install | ImportStage::Retry => e is Installed,
        ImportStage::WriteIcon | ImportStage::WriteSettings | ImportStage::WriteKeybindings
        | ImportStage::WriteReport => e is Written,
        ImportStage::Finished => false,
    }
}

/// The stages that work on the extension at `next_ext`.
pub open spec fn on_extension(stage: ImportStage) -> bool {
    stage == ImportStage::Install || stage == ImportStage::AskAfterFailure || stage
        == ImportStage::Retry
}

/// The shape every session keeps.
pub open spec fn session_wf(s: ImportSessionView) -> bool {
    &&& s.next_ext <= s.profile.extensions.len()
    &&& on_extension(s.stage) ==> s.next_ext < s.profile.extensions.len()
}

/// The session `s` over, with outcome `r`.
pub open spec fn finish(s: ImportSessionView, r: Result<ImportReportView, ImportErrorView>) -> (ImportSessionView, ImportActionView) {
    (ImportSessionView { stage: ImportStage::Finished, ..s }, ImportActionView::Finish(r))
}

/// An empty report.
pub open spec fn empty_report() -> ImportReportView {
    initial_report(Seq::empty())
}

/// The session `s` over with success: the report leaves the session.
pub open spec fn finish_ok(s: ImportSessionView) -> (ImportSessionView, ImportActionView) {
    (
        ImportSessionView { stage: ImportStage::Finished, report: empty_report(), ..s },
        ImportActionView::Finish(Ok(s.report)),
    )
}

/// Last step: write the report file when one was asked for.
pub open spec fn after_keybindings(s: ImportSessionView) -> (ImportSessionView, ImportActionView) {
    match s.report_path {
        Some(p) => match spec_json_pretty(report_json_view(s.report)) {
            Ok(t) => (
                ImportSessionView { stage: ImportStage::WriteReport, ..s },
                ImportActionView::WriteFile { path: p, contents: t },
            ),
            Err(e) => finish(s, Err(ImportErrorView::Json(e))),
        },
        None => finish_ok(s),
    }
}

/// Write `keybindings.json` when the profile has key bindings.
pub open spec fn after_settings(s: ImportSessionView) -> (ImportSessionView, ImportActionView) {
    if s.profile.keybindings_content.len() > 0 {
        (
            ImportSessionView { stage: ImportStage::WriteKeybindings, ..s },
            ImportActionView::WriteFile {
                path: spec_path_join(s.profile_dir, "keybindings.json"@),
                contents: s.profile.keybindings_content,
            },
        )
    } else {
        after_keybindings(s)
    }
}

/// Write `settings.json` when the profile has settings.
pub open spec fn after_extensions(s: ImportSessionView) -> (ImportSessionView, ImportActionView) {
    if s.profile.settings_content.len() > 0 {
        (
            ImportSessionView { stage: ImportStage::WriteSettings, ..s },
            ImportActionView::WriteFile {
                path: spec_path_join(s.profile_dir, "settings.json"@),
                contents: s.profile.settings_content,
            },
        )
    } else {
        after_settings(s)
    }
}

/// Go on with the extension at position `i`, or past the extensions.
pub open spec fn extension_from(s: ImportSessionView, i: nat) -> (ImportSessionView, ImportActionView) {
    if i < s.profile.extensions.len() {
        (
            ImportSessionView { stage: ImportStage::Install, next_ext: i, ..s },
            ImportActionView::Install { profile: s.profile.name, extension: s.profile.extensions[i as int] },
        )
    } else {
        after_extensions(ImportSessionView { next_ext: i, ..s })
    }
}

/// Once the directory is known: set the icon of a named profile that has
/// one, then install the extensions.
pub open spec fn after_dir(s: ImportSessionView) -> (ImportSessionView, ImportActionView) {
    if s.profile.icon.len() > 0 && !s.is_default {
        (ImportSessionView { stage: ImportStage::ReadForIcon, ..s }, ImportActionView::ReadStorage)
    } else {
        extension_from(s, 0)
    }
}

/// Check that directory `d` exists.
pub open spec fn check_dir(s: ImportSessionView, d: Seq<char>) -> (ImportSessionView, ImportActionView) {
    (ImportSessionView { stage: ImportStage::CheckDir, profile_dir: d, ..s }, ImportActionView::CheckDirectory(d))
}

/// The session after recording that the current extension was installed.
pub open spec fn record_installed(s: ImportSessionView) -> ImportSessionView {
    ImportSessionView {
        report: ImportReportView {
            installed: s.report.installed.push(s.profile.extensions[s.next_ext as int]),
            ..s.report
        },
        ..s
    }
}

/// The session after recording that the current extension was skipped.
pub open spec fn record_skipped(s: ImportSessionView) -> ImportSessionView {
    ImportSessionView {
        report: ImportReportView {
            skipped: s.report.skipped.push(s.profile.extensions[s.next_ext as int]),
            ..s.report
        },
        ..s
    }
}

/// The session after recording that the current extension failed.
pub open spec fn record_failed(s: ImportSessionView) -> ImportSessionView {
    ImportSessionView {
        report: ImportReportView {
            failed: s.report.failed.push(s.profile.extensions[s.next_ext as int]),
            ..s.report
        },
        ..s
    }
}

/// How an import begins for `profile`, with `storage.json` at `storage_json`
/// and the report written to `report_path` when there is one. A profile
/// whose lowercase name is `default` lives in the `User` directory and is
/// neither created nor checked; any other profile is looked up first.
pub open spec fn start_view(profile: ParsedProfileView, storage_json: Seq<char>, report_path: Option<Seq<char>>) -> (ImportSessionView, ImportActionView) {
    let is_default = spec_to_lowercase(profile.name) == "default"@;
    let s = ImportSessionView {
        profile,
        storage_json,
        report_path,
        is_default,
        profile_dir: Seq::empty(),
        stage: ImportStage::CheckRegistration,
        next_ext: 0,
        report: initial_report(profile.name),
    };
    if !is_default {
        (s, ImportActionView::ReadStorage)
    } else {
        match spec_path_parent(storage_json) {
            Some(g) => match spec_path_parent(g) {
                Some(user) => check_dir(s, user),
                None => finish(s, Err(ImportErrorView::Invalid("Cannot resolve User dir from storage.json path"@))),
            },
            None => finish(s, Err(ImportErrorView::Invalid("Cannot resolve User dir from storage.json path"@))),
        }
    }
}

/// What the session `s` does on the outcome `e` of the action it waited for.
pub open spec fn next(s: ImportSessionView, e: ImportEventView) -> (ImportSessionView, ImportActionView) {
    let name = s.profile.name;
    match (s.stage, e) {
        (ImportStage::CheckRegistration, ImportEventView::StorageRead(t)) => {
            let registered = match t {
                Some(x) => registered_in(name, x),
                None => false,
            };
            if registered {
                (ImportSessionView { stage: ImportStage::ConfirmOverwrite, ..s }, ImportActionView::PromptOverwrite(name))
            } else {
                (ImportSessionView { stage: ImportStage::Creating, ..s }, ImportActionView::CreateProfile(name))
            }
        },
        (ImportStage::ConfirmOverwrite, ImportEventView::Answer(a)) => {
            if a == "cancel"@ {
                finish(s, Err(ImportErrorView::Invalid("User cancelled"@)))
            } else {
                (ImportSessionView { stage: ImportStage::LocateDir, ..s }, ImportActionView::ReadStorage)
            }
        },
        (ImportStage::Creating, ImportEventView::Created(r)) => match r {
            Err(msg) => finish(s, Err(ImportErrorView::Invalid("Profile creation failed: "@ + msg))),
            Ok(()) => (ImportSessionView { stage: ImportStage::LocateDir, ..s }, ImportActionView::ReadStorage),
        },
        (ImportStage::LocateDir, ImportEventView::StorageRead(t)) => {
            let dir = match t {
                Some(x) => profile_dir_of(name, s.storage_json, x),
                None => None,
            };
            match dir {
                Some(d) => check_dir(s, d),
                None => finish(
                    s,
                    Err(ImportErrorView::Invalid("Could not find profile directory for '"@ + name + "' in storage.json"@)),
                ),
            }
        },
        (ImportStage::CheckDir, ImportEventView::DirectoryChecked(exists)) => {
            if exists {
                after_dir(ImportSessionView {
                    report: ImportReportView { profile_dir: Some(s.profile_dir), ..s.report },
                    ..s
                })
            } else {
                finish(s, Err(ImportErrorView::Invalid("Profile directory does not exist: "@ + s.profile_dir)))
            }
        },
        (ImportStage::ReadForIcon, ImportEventView::StorageRead(t)) => match t {
            Some(x) => match patched_storage(name, s.profile.icon, x) {
                Ok(new_text) => (ImportSessionView { stage: ImportStage::WriteIcon, ..s }, ImportActionView::WriteStorage(new_text)),
                Err(_) => extension_from(s, 0),
            },
            None => extension_from(s, 0),
        },
        (ImportStage::WriteIcon, ImportEventView::Written(_)) => extension_from(s, 0),
        (ImportStage::Install, ImportEventView::Installed(ok)) | (ImportStage::Retry, ImportEventView::Installed(ok)) => {
            if ok {
                extension_from(record_installed(s), s.next_ext + 1)
            } else {
                (
                    ImportSessionView { stage: ImportStage::AskAfterFailure, ..s },
                    ImportActionView::PromptExtensionFailure(s.profile.extensions[s.next_ext as int]),
                )
            }
        },
        (ImportStage::AskAfterFailure, ImportEventView::Answer(a)) => {
            let ext = s.profile.extensions[s.next_ext as int];
            if a == "abort"@ {
                finish(record_failed(s), Err(ImportErrorView::Invalid("Aborted during extension install: "@ + ext)))
            } else if a == "retry"@ {
                (ImportSessionView { stage: ImportStage::Retry, ..s }, ImportActionView::Install { profile: name, extension: ext })
            } else {
                extension_from(record_skipped(s), s.next_ext + 1)
            }
        },
        (ImportStage::WriteSettings, ImportEventView::Written(r)) => match r {
            Err(err) => finish(s, Err(ImportErrorView::Io(err))),
            Ok(()) => after_settings(ImportSessionView {
                report: ImportReportView {
                    settings_written: Some(spec_path_join(s.profile_dir, "settings.json"@)),
                    ..s.report
                },
                ..s
            }),
        },
        (ImportStage::WriteKeybindings, ImportEventView::Written(r)) => match r {
            Err(err) => finish(s, Err(ImportErrorView::Io(err))),
            Ok(()) => after_keybindings(ImportSessionView {
                report: ImportReportView {
                    keybindings_written: Some(spec_path_join(s.profile_dir, "keybindings.json"@)),
                    ..s.report
                },
                ..s
            }),
        },
        (ImportStage::WriteReport, ImportEventView::Written(_)) => finish_ok(s),
        _ => (s, ImportActionView::ReadStorage),
    }
}


/// An import in progress. Only [`import_profile`] starts one.
pub struct ImportSession {
    profile: ParsedProfile,
    storage_json: String,
    report_path: Option<String>,
    is_default: bool,
    profile_dir: String,
    stage: ImportStage,
    next_ext: usize,
    report: ImportReport,
}

impl View for ImportSession {
    type V = ImportSessionView;

    closed spec fn view(&self) -> ImportSessionView {
        ImportSessionView {
            profile: self.profile@,
            storage_json: self.storage_json@,
            report_path: opt_view(self.report_path),
            is_default: self.is_default,
            profile_dir: self.profile_dir@,
            stage: self.stage,
            next_ext: self.next_ext as nat,
            report: self.report@,
        }
    }
}

fn concat2(a: &str, b: &str) -> (res: String)
    ensures
        res@ == a@ + b@,
{
    let mut r = String::from_str(a);
    r.append(b);
    r
}

fn concat3(a: &str, b: &str, c: &str) -> (res: String)
    ensures
        res@ == a@ + b@ + c@,
{
    let mut r = String::from_str(a);
    r.append(b);
    r.append(c);
    r
}

fn empty_report_exec() -> (res: ImportReport)
    ensures
        res@ == empty_report(),
{
    let r = ImportReport {
        profile: String::new(),
        profile_dir: None,
        installed: Vec::new(),
        skipped: Vec::new(),
        failed: Vec::new(),
        settings_written: None,
        keybindings_written: None,
    };
    assert(r@.installed =~= Seq::<Seq<char>>::empty());
    assert(r@.skipped =~= Seq::<Seq<char>>::empty());
    assert(r@.failed =~= Seq::<Seq<char>>::empty());
    r
}

fn push_text(v: &mut Vec<String>, s: String)
    ensures
        final(v).deep_view() == old(v).deep_view().push(s@),
{
    v.push(s);
    assert(v.deep_view() =~= old(v).deep_view().push(s@));
}

/// Begin the import of `profile`, with `storage.json` at the path
/// `storage_json` and the report written to `report_path` when there is one.
/// Returns the session and the first action for the caller to perform.
pub fn import_profile(profile: ParsedProfile, storage_json: String, report_path: Option<String>) -> (res: (ImportSession, ImportAction))
    ensures
        session_wf(res.0@),
        (res.0@, res.1@) == start_view(profile@, storage_json@, opt_view(report_path)),
{
    let lower = to_lowercase(profile.name.as_str());
    let is_default = same_text(lower.as_str(), "default");
    let report = ImportReport {
        profile: profile.name.clone(),
        profile_dir: None,
        installed: Vec::new(),
        skipped: Vec::new(),
        failed: Vec::new(),
        settings_written: None,
        keybindings_written: None,
    };
    assert(report@.installed =~= Seq::<Seq<char>>::empty());
    assert(report@.skipped =~= Seq::<Seq<char>>::empty());
    assert(report@.failed =~= Seq::<Seq<char>>::empty());
    let mut session = ImportSession {
        profile,
        storage_json,
        report_path,
        is_default,
        profile_dir: String::new(),
        stage: ImportStage::CheckRegistration,
        next_ext: 0,
        report,
    };
    if !is_default {
        return (session, ImportAction::ReadStorage);
    }
    let user = match path_parent(session.storage_json.as_str()) {
        Some(g) => path_parent(g.as_str()),
        None => None,
    };
    match user {
        Some(u) => {
            let a = session.check_dir(u);
            (session, a)
        },
        None => {
            let a = session.fail(
                ImportError::Invalid(String::from_str("Cannot resolve User dir from storage.json path")),
            );
            (session, a)
        },
    }
}

impl ImportSession {
    fn fail(&mut self, e: ImportError) -> (a: ImportAction)
        requires
            old(self)@.next_ext <= old(self)@.profile.extensions.len(),
        ensures
            session_wf(final(self)@),
            (final(self)@, a@) == finish(old(self)@, Err(e@)),
    {
        self.stage = ImportStage::Finished;
        ImportAction::Finish(Err(e))
    }

    fn succeed(&mut self) -> (a: ImportAction)
        requires
            old(self)@.next_ext <= old(self)@.profile.extensions.len(),
        ensures
            session_wf(final(self)@),
            (final(self)@, a@) == finish_ok(old(self)@),
    {
        let mut report = empty_report_exec();
        std::mem::swap(&mut report, &mut self.report);
        self.stage = ImportStage::Finished;
        ImportAction::Finish(Ok(report))
    }

    fn check_dir(&mut self, d: String) -> (a: ImportAction)
        requires
            old(self)@.next_ext <= old(self)@.profile.extensions.len(),
        ensures
            session_wf(final(self)@),
            (final(self)@, a@) == check_dir(old(self)@, d@),
    {
        self.profile_dir = d.clone();
        self.stage = ImportStage::CheckDir;
        ImportAction::CheckDirectory(d)
    }

    fn after_keybindings(&mut self) -> (a: ImportAction)
        requires
            old(self)@.next_ext <= old(self)@.profile.extensions.len(),
        ensures
            session_wf(final(self)@),
            (final(self)@, a@) == after_keybindings(old(self)@),
    {
        match &self.report_path {
            Some(p) => {
                let path = p.clone();
                let j = self.report.to_json();
                match json_to_pretty_string(&j) {
                    Ok(t) => {
                        self.stage = ImportStage::WriteReport;
                        ImportAction::WriteFile { path, contents: t }
                    },
                    Err(e) => self.fail(ImportError::Json(e)),
                }
            },
            None => self.succeed(),
        }
    }

    fn after_settings(&mut self) -> (a: ImportAction)
        requires
            old(self)@.next_ext <= old(self)@.profile.extensions.len(),
        ensures
            session_wf(final(self)@),
            (final(self)@, a@) == after_settings(old(self)@),
    {
        if !self.profile.keybindings_content.as_str().is_empty() {
            self.stage = ImportStage::WriteKeybindings;
            let path = path_join(self.profile_dir.as_str(), "keybindings.json");
            ImportAction::WriteFile { path, contents: self.profile.keybindings_content.clone() }
        } else {
            self.after_keybindings()
        }
    }

    fn after_extensions(&mut self) -> (a: ImportAction)
        requires
            old(self)@.next_ext <= old(self)@.profile.extensions.len(),
        ensures
            session_wf(final(self)@),
            (final(self)@, a@) == after_extensions(old(self)@),
    {
        if !self.profile.settings_content.as_str().is_empty() {
            self.stage = ImportStage::WriteSettings;
            let path = path_join(self.profile_dir.as_str(), "settings.json");
            ImportAction::WriteFile { path, contents: self.profile.settings_content.clone() }
        } else {
            self.after_settings()
        }
    }

    fn extension_from(&mut self, i: usize) -> (a: ImportAction)
        requires
            session_wf(old(self)@),
            i <= old(self)@.profile.extensions.len(),
        ensures
            session_wf(final(self)@),
            (final(self)@, a@) == extension_from(old(self)@, i as nat),
    {
        if i < self.profile.extensions.len() {
            self.stage = ImportStage::Install;
            self.next_ext = i;
            let ext = self.profile.extensions[i].clone();
            assert(ext@ == self@.profile.extensions[i as int]);
            ImportAction::Install { profile: self.profile.name.clone(), extension: ext }
        } else {
            self.next_ext = i;
            self.after_extensions()
        }
    }

    fn after_dir(&mut self) -> (a: ImportAction)
        requires
            session_wf(old(self)@),
        ensures
            session_wf(final(self)@),
            (final(self)@, a@) == after_dir(old(self)@),
    {
        if !self.profile.icon.as_str().is_empty() && !self.is_default {
            self.stage = ImportStage::ReadForIcon;
            ImportAction::ReadStorage
        } else {
            self.extension_from(0)
        }
    }

    fn current_extension(&self) -> (res: String)
        requires
            session_wf(self@),
            on_extension(self@.stage),
        ensures
            res@ == self@.profile.extensions[self@.next_ext as int],
    {
        self.profile.extensions[self.next_ext].clone()
    }

    /// Take the outcome `event` of the action the session waits for and
    /// return the next action.
    pub fn step(&mut self, event: ImportEvent) -> (action: ImportAction)
        requires
            session_wf(old(self)@),
            awaits(old(self)@.stage, event@),
        ensures
            session_wf(final(self)@),
            (final(self)@, action@) == next(old(self)@, event@),
    {
        match (self.stage, event) {
            (ImportStage::CheckRegistration, ImportEvent::StorageRead(t)) => {
                let registered = match &t {
                    Some(x) => profile_registered(self.profile.name.as_str(), x.as_str()),
                    None => false,
                };
                if registered {
                    self.stage = ImportStage::ConfirmOverwrite;
                    ImportAction::PromptOverwrite(self.profile.name.clone())
                } else {
                    self.stage = ImportStage::Creating;
                    ImportAction::CreateProfile(self.profile.name.clone())
                }
            },
            (ImportStage::ConfirmOverwrite, ImportEvent::Answer(a)) => {
                if same_text(a.as_str(), "cancel") {
                    self.fail(ImportError::Invalid(String::from_str("User cancelled")))
                } else {
                    self.stage = ImportStage::LocateDir;
                    ImportAction::ReadStorage
                }
            },
            (ImportStage::Creating, ImportEvent::Created(r)) => match r {
                Err(msg) => {
                    let m = concat2("Profile creation failed: ", msg.as_str());
                    self.fail(ImportError::Invalid(m))
                },
                Ok(()) => {
                    self.stage = ImportStage::LocateDir;
                    ImportAction::ReadStorage
                },
            },
            (ImportStage::LocateDir, ImportEvent::StorageRead(t)) => {
                let dir = match &t {
                    Some(x) => resolve_profile_dir(
                        self.profile.name.as_str(),
                        self.storage_json.as_str(),
                        x.as_str(),
                    ),
                    None => None,
                };
                match dir {
                    Some(d) => self.check_dir(d),
                    None => {
                        let m = concat3(
                            "Could not find profile directory for '",
                            self.profile.name.as_str(),
                            "' in storage.json",
                        );
                        self.fail(ImportError::Invalid(m))
                    },
                }
            },
            (ImportStage::CheckDir, ImportEvent::DirectoryChecked(exists)) => {
                if exists {
                    self.report.profile_dir = Some(self.profile_dir.clone());
                    self.after_dir()
                } else {
                    let m = concat2("Profile directory does not exist: ", self.profile_dir.as_str());
                    self.fail(ImportError::Invalid(m))
                }
            },
            (ImportStage::ReadForIcon, ImportEvent::StorageRead(t)) => match &t {
                Some(x) => match patch_icon(self.profile.name.as_str(), self.profile.icon.as_str(), x.as_str()) {
                    Ok(new_text) => {
                        self.stage = ImportStage::WriteIcon;
                        ImportAction::WriteStorage(new_text)
                    },
                    Err(_) => self.extension_from(0),
                },
                None => self.extension_from(0),
            },
            (ImportStage::WriteIcon, ImportEvent::Written(_)) => self.extension_from(0),
            (ImportStage::Install, ImportEvent::Installed(ok)) | (ImportStage::Retry, ImportEvent::Installed(ok)) => {
                assert(self.next_ext < self.profile.extensions.len());
                if ok {
                    let ext = self.current_extension();
                    push_text(&mut self.report.installed, ext);
                    self.extension_from(self.next_ext + 1)
                } else {
                    let ext = self.current_extension();
                    self.stage = ImportStage::AskAfterFailure;
                    ImportAction::PromptExtensionFailure(ext)
                }
            },
            (ImportStage::AskAfterFailure, ImportEvent::Answer(a)) => {
                let ext = self.current_extension();
                if same_text(a.as_str(), "abort") {
                    let m = concat2("Aborted during extension install: ", ext.as_str());
                    push_text(&mut self.report.failed, ext);
                    self.fail(ImportError::Invalid(m))
                } else if same_text(a.as_str(), "retry") {
                    self.stage = ImportStage::Retry;
                    ImportAction::Install { profile: self.profile.name.clone(), extension: ext }
                } else {
                    assert(self.next_ext < self.profile.extensions.len());
                    push_text(&mut self.report.skipped, ext);
                    self.extension_from(self.next_ext + 1)
                }
            },
            (ImportStage::WriteSettings, ImportEvent::Written(r)) => match r {
                Err(err) => self.fail(ImportError::Io(err)),
                Ok(()) => {
                    self.report.settings_written = Some(path_join(self.profile_dir.as_str(), "settings.json"));
                    self.after_settings()
                },
            },
            (ImportStage::WriteKeybindings, ImportEvent::Written(r)) => match r {
                Err(err) => self.fail(ImportError::Io(err)),
                Ok(()) => {
                    self.report.keybindings_written = Some(path_join(self.profile_dir.as_str(), "keybindings.json"));
                    self.after_keybindings()
                },
            },
            (ImportStage::WriteReport, ImportEvent::Written(_)) => self.succeed(),
            _ => {
                assert(false);
                ImportAction::ReadStorage
            },
        }
    }

    /// The stage the session is in.
    pub fn stage(&self) -> (res: ImportStage)
        ensures
            res == self@.stage,
    {
        self.stage
    }
}


/// Every entry of `r`'s lists is one of the extensions `exts`.
pub open spec fn lists_from(r: ImportReportView, exts: Seq<Seq<char>>) -> bool {
    &&& forall|k: int| 0 <= k < r.installed.len() ==> exts.contains(#[trigger] r.installed[k])
    &&& forall|k: int| 0 <= k < r.skipped.len() ==> exts.contains(#[trigger] r.skipped[k])
    &&& forall|k: int| 0 <= k < r.failed.len() ==> exts.contains(#[trigger] r.failed[k])
}

/// The report of a session accounts for the extensions dealt with so far:
/// it names the profile, lists only the profile's extensions, and has one
/// entry (installed or skipped) for each extension before the current one,
/// or for all of them once the extensions are done.
pub open spec fn accounts(s: ImportSessionView) -> bool {
    let r = s.report;
    let n = s.profile.extensions.len();
    match s.stage {
        ImportStage::Finished => true,
        _ => {
            &&& r.profile == s.profile.name
            &&& lists_from(r, s.profile.extensions)
            &&& r.failed.len() == 0
            &&& if on_extension(s.stage) {
                r.installed.len() + r.skipped.len() == s.next_ext
            } else if s.stage == ImportStage::WriteSettings || s.stage
                == ImportStage::WriteKeybindings || s.stage == ImportStage::WriteReport {
                r.installed.len() + r.skipped.len() == n
            } else {
                r.installed.len() == 0 && r.skipped.len() == 0
            }
        },
    }
}

proof fn lemma_extension_from_accounts(s: ImportSessionView, i: nat)
    requires
        i <= s.profile.extensions.len(),
        s.stage != ImportStage::Finished,
        s.report.profile == s.profile.name,
        lists_from(s.report, s.profile.extensions),
        s.report.failed.len() == 0,
        s.report.installed.len() + s.report.skipped.len() == i,
    ensures
        accounts(extension_from(s, i).0),
        extension_from(s, i).1 matches ImportActionView::Finish(Ok(r)) ==> r.installed.len()
            + r.skipped.len() == s.profile.extensions.len() && r.failed.len() == 0 && r.profile
            == s.profile.name && lists_from(r, s.profile.extensions),
{
}

/// A new session accounts for its (empty) report.
pub proof fn lemma_start_accounts(profile: ParsedProfileView, storage_json: Seq<char>, report_path: Option<Seq<char>>)
    ensures
        accounts(start_view(profile, storage_json, report_path).0),
{
}

/// Every step keeps the report accounting for the extensions dealt with; so
/// an import that succeeds reports every extension of the profile as either
/// installed or skipped, none as failed, and only extensions of the profile.
pub proof fn lemma_step_accounts(s: ImportSessionView, e: ImportEventView)
    requires
        session_wf(s),
        accounts(s),
        awaits(s.stage, e),
    ensures
        accounts(next(s, e).0),
        next(s, e).1 matches ImportActionView::Finish(Ok(r)) ==> r.installed.len()
            + r.skipped.len() == s.profile.extensions.len() && r.failed.len() == 0 && r.profile
            == s.profile.name && lists_from(r, s.profile.extensions),
{
    let exts = s.profile.extensions;
    match s.stage {
        ImportStage::CheckDir => {
            if let ImportEventView::DirectoryChecked(b) = e {
                if b {
                    let s2 = ImportSessionView {
                        report: ImportReportView { profile_dir: Some(s.profile_dir), ..s.report },
                        ..s
                    };
                    lemma_extension_from_accounts(s2, 0);
                }
            }
        },
        ImportStage::ReadForIcon | ImportStage::WriteIcon => {
            lemma_extension_from_accounts(s, 0);
        },
        ImportStage::Install | ImportStage::Retry => {
            if let ImportEventView::Installed(ok) = e {
                if ok {
                    let s2 = record_installed(s);
                    assert(exts.contains(exts[s.next_ext as int]));
                    assert(lists_from(s2.report, exts));
                    lemma_extension_from_accounts(s2, s.next_ext + 1);
                }
            }
        },
        ImportStage::AskAfterFailure => {
            if let ImportEventView::Answer(a) = e {
                if a != "abort"@ && a != "retry"@ {
                    let s2 = record_skipped(s);
                    assert(exts.contains(exts[s.next_ext as int]));
                    assert(lists_from(s2.report, exts));
                    lemma_extension_from_accounts(s2, s.next_ext + 1);
                }
            }
        },
        _ => {},
    }
}

/// Whether a session only ever is where a profile named `default` may be:
/// such a profile is never looked up, created, confirmed or re-iconed.
pub open spec fn default_untouched(s: ImportSessionView) -> bool {
    s.is_default ==> !(s.stage == ImportStage::CheckRegistration || s.stage
        == ImportStage::ConfirmOverwrite || s.stage == ImportStage::Creating || s.stage
        == ImportStage::LocateDir || s.stage == ImportStage::ReadForIcon || s.stage
        == ImportStage::WriteIcon)
}

/// Actions that change which profiles exist or how they look in
/// `storage.json`.
pub open spec fn touches_profile_list(a: ImportActionView) -> bool {
    a is PromptOverwrite || a is CreateProfile || a is WriteStorage
}

/// The import of the `default` profile neither creates, nor asks to
/// overwrite, nor rewrites `storage.json`: it begins without doing so ...
pub proof fn lemma_default_start(profile: ParsedProfileView, storage_json: Seq<char>, report_path: Option<Seq<char>>)
    ensures
        default_untouched(start_view(profile, storage_json, report_path).0),
        start_view(profile, storage_json, report_path).0.is_default ==> !touches_profile_list(
            start_view(profile, storage_json, report_path).1,
        ),
{
}

/// ... and no step of it does so later.
pub proof fn lemma_default_step(s: ImportSessionView, e: ImportEventView)
    requires
        session_wf(s),
        default_untouched(s),
        awaits(s.stage, e),
    ensures
        default_untouched(next(s, e).0),
        next(s, e).0.is_default == s.is_default,
        s.is_default ==> !touches_profile_list(next(s, e).1),
{
}

/// The installer is only ever asked to install one of the profile's
/// extensions, into the profile being imported.
pub proof fn lemma_install_targets_profile(s: ImportSessionView, e: ImportEventView)
    requires
        session_wf(s),
        awaits(s.stage, e),
    ensures
        next(s, e).1 matches ImportActionView::Install { profile, extension } ==> profile
            == s.profile.name && s.profile.extensions.contains(extension),
{
    let exts = s.profile.extensions;
    if next(s, e).1 is Install {
        let n = next(s, e).0.next_ext;
        assert(exts.contains(exts[n as int]));
        if s.stage == ImportStage::AskAfterFailure {
            assert(exts.contains(exts[s.next_ext as int]));
        }
    }
}

/// Answering `cancel` to the overwrite question ends the import with the
/// error `User cancelled`, before anything is created or written.
pub proof fn lemma_cancel_ends_import(s: ImportSessionView)
    requires
        s.stage == ImportStage::ConfirmOverwrite,
    ensures
        next(s, ImportEventView::Answer("cancel"@)).1 == ImportActionView::Finish(
            Err(ImportErrorView::Invalid("User cancelled"@)),
        ),
{
}

/// Answering `abort` after a failed install ends the import with an error
/// that names the extension.
pub proof fn lemma_abort_ends_import(s: ImportSessionView)
    requires
        session_wf(s),
        s.stage == ImportStage::AskAfterFailure,
    ensures
        next(s, ImportEventView::Answer("abort"@)).1 == ImportActionView::Finish(
            Err(
                ImportErrorView::Invalid(
                    "Aborted during extension install: "@ + s.profile.extensions[s.next_ext as int],
                ),
            ),
        ),
{
}


/// The only files an import writes are `settings.json` and
/// `keybindings.json` in the profile's directory, each with the profile's
/// text and only when that text is not empty, and the report file; the only
/// text written to `storage.json` is the profile list with the icon patched.
pub proof fn lemma_writes_only_profile_files(s: ImportSessionView, e: ImportEventView)
    requires
        session_wf(s),
        awaits(s.stage, e),
    ensures
        next(s, e).1 matches ImportActionView::WriteFile { path, contents } ==> {
            ||| path == spec_path_join(s.profile_dir, "settings.json"@) && contents
                == s.profile.settings_content && contents.len() > 0
            ||| path == spec_path_join(s.profile_dir, "keybindings.json"@) && contents
                == s.profile.keybindings_content && contents.len() > 0
            ||| s.report_path == Some(path)
        },
        next(s, e).1 matches ImportActionView::WriteStorage(t) ==> e matches ImportEventView::StorageRead(
            Some(x),
        ) && patched_storage(s.profile.name, s.profile.icon, x) == Ok::<Seq<char>, serde_json::Error>(t),
{
}

/// Where `settings.json` goes for the session `s`, when the profile has
/// settings.
pub open spec fn expected_settings(s: ImportSessionView) -> Option<Seq<char>> {
    if s.profile.settings_content.len() > 0 {
        Some(spec_path_join(s.profile_dir, "settings.json"@))
    } else {
        None
    }
}

/// Where `keybindings.json` goes for the session `s`, when the profile has
/// key bindings.
pub open spec fn expected_keybindings(s: ImportSessionView) -> Option<Seq<char>> {
    if s.profile.keybindings_content.len() > 0 {
        Some(spec_path_join(s.profile_dir, "keybindings.json"@))
    } else {
        None
    }
}

/// What the report records of the files written, by where the import
/// stands: nothing before the settings are written, which happens only for
/// a profile with settings; the settings file (when the profile has
/// settings) while the key bindings are written, which happens only for a
/// profile with key bindings; both files (each when the profile has its
/// content) while the report is written.
pub open spec fn files_recorded(s: ImportSessionView) -> bool {
    match s.stage {
        ImportStage::Finished => true,
        ImportStage::WriteSettings => s.profile.settings_content.len() > 0
            && s.report.settings_written is None && s.report.keybindings_written is None,
        ImportStage::WriteKeybindings => s.profile.keybindings_content.len() > 0
            && s.report.settings_written == expected_settings(s)
            && s.report.keybindings_written is None,
        ImportStage::WriteReport => s.report.settings_written == expected_settings(s)
            && s.report.keybindings_written == expected_keybindings(s),
        _ => s.report.settings_written is None && s.report.keybindings_written is None,
    }
}

/// A new session has recorded no file.
pub proof fn lemma_start_files_recorded(profile: ParsedProfileView, storage_json: Seq<char>, report_path: Option<Seq<char>>)
    ensures
        files_recorded(start_view(profile, storage_json, report_path).0),
{
}

/// An import that succeeds has written, in the profile's directory,
/// `settings.json` exactly when the profile has settings and
/// `keybindings.json` exactly when it has key bindings, and its report says
/// so; every step keeps [`files_recorded`]. A file is recorded only by the
/// step that learns it was written, and the writes asked for are exactly
/// the profile's texts, in its directory.
pub proof fn lemma_success_writes_profile_files(s: ImportSessionView, e: ImportEventView)
    requires
        session_wf(s),
        files_recorded(s),
        awaits(s.stage, e),
    ensures
        files_recorded(next(s, e).0),
        next(s, e).0.stage == ImportStage::WriteSettings ==> next(s, e).1
            == (ImportActionView::WriteFile {
            path: spec_path_join(s.profile_dir, "settings.json"@),
            contents: s.profile.settings_content,
        }),
        next(s, e).0.stage == ImportStage::WriteKeybindings ==> next(s, e).1
            == (ImportActionView::WriteFile {
            path: spec_path_join(s.profile_dir, "keybindings.json"@),
            contents: s.profile.keybindings_content,
        }),
        next(s, e).0.stage != ImportStage::Finished && next(s, e).0.report.settings_written
            != s.report.settings_written ==> s.stage == ImportStage::WriteSettings && (e matches
            ImportEventView::Written(r) && r is Ok),
        next(s, e).0.stage != ImportStage::Finished && next(s, e).0.report.keybindings_written
            != s.report.keybindings_written ==> s.stage == ImportStage::WriteKeybindings && (e matches
            ImportEventView::Written(r) && r is Ok),
        next(s, e).1 matches ImportActionView::Finish(Ok(r)) ==> r.settings_written
            == expected_settings(s) && r.keybindings_written == expected_keybindings(s),
{
    match s.stage {
        ImportStage::CheckDir => {
            if let ImportEventView::DirectoryChecked(b) = e {
                if b {
                    let s2 = ImportSessionView {
                        report: ImportReportView { profile_dir: Some(s.profile_dir), ..s.report },
                        ..s
                    };
                    lemma_extension_from_files(s2, 0);
                }
            }
        },
        ImportStage::ReadForIcon | ImportStage::WriteIcon => {
            lemma_extension_from_files(s, 0);
        },
        ImportStage::Install | ImportStage::Retry => {
            if let ImportEventView::Installed(ok) = e {
                if ok {
                    lemma_extension_from_files(record_installed(s), s.next_ext + 1);
                }
            }
        },
        ImportStage::AskAfterFailure => {
            if let ImportEventView::Answer(a) = e {
                if a != "abort"@ && a != "retry"@ {
                    lemma_extension_from_files(record_skipped(s), s.next_ext + 1);
                }
            }
        },
        ImportStage::WriteSettings => {
            if let ImportEventView::Written(r) = e {
                if r is Ok {
                    let s2 = ImportSessionView {
                        report: ImportReportView {
                            settings_written: Some(spec_path_join(s.profile_dir, "settings.json"@)),
                            ..s.report
                        },
                        ..s
                    };
                    lemma_after_settings_files(s2);
                }
            }
        },
        _ => {},
    }
}

proof fn lemma_after_settings_files(s: ImportSessionView)
    requires
        s.stage != ImportStage::Finished,
        s.report.settings_written == expected_settings(s),
        s.report.keybindings_written is None,
    ensures
        files_recorded(after_settings(s).0),
        after_settings(s).1 matches ImportActionView::Finish(Ok(r)) ==> r.settings_written
            == expected_settings(s) && r.keybindings_written == expected_keybindings(s),
{
}

proof fn lemma_extension_from_files(s: ImportSessionView, i: nat)
    requires
        s.stage != ImportStage::Finished,
        s.report.settings_written is None,
        s.report.keybindings_written is None,
    ensures
        files_recorded(extension_from(s, i).0),
        extension_from(s, i).1 matches ImportActionView::Finish(Ok(r)) ==> r.settings_written
            == expected_settings(s) && r.keybindings_written == expected_keybindings(s),
{
    if i >= s.profile.extensions.len() {
        let s1 = ImportSessionView { next_ext: i, ..s };
        if s.profile.settings_content.len() == 0 {
            lemma_after_settings_files(s1);
        }
    }
}

/// Once the settings are written, a profile with key bindings has them
/// written next: exactly its key bindings text, to `keybindings.json` in the
/// profile's directory.
pub proof fn lemma_keybindings_follow_settings(s: ImportSessionView)
    requires
        s.stage == ImportStage::WriteSettings,
        s.profile.keybindings_content.len() > 0,
    ensures
        next(s, ImportEventView::Written(Ok(()))).1 == (ImportActionView::WriteFile {
            path: spec_path_join(s.profile_dir, "keybindings.json"@),
            contents: s.profile.keybindings_content,
        }),
        next(s, ImportEventView::Written(Ok(()))).0.stage == ImportStage::WriteKeybindings,
{
}

} // verus!
