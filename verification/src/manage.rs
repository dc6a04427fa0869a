//! Management of existing profiles: listing the profiles, listing and
//! removing the extensions of one.
//!
//! The `code` command is run by the caller; the library decides which
//! profiles exist, how to call `code` for a profile, what its listing says,
//! and, for removals, what to ask and what to run next.

use vstd::prelude::*;
use crate::json::{Json, JsonView, items_view, str_or_empty, json_get, json_as_str, parse_json, lemma_array_view};
use crate::storage::{entries_in, profile_registered, profiles_of, storage_registers};
use crate::text::{
    chars_of, decimal, decimal_string, opt_view, same_text, spec_to_lowercase, string_of, to_lowercase, trim,
    trim_chars,
};

verus! {

/// Whether `name` names VS Code's built-in default profile.
pub open spec fn is_default_name(name: Seq<char>) -> bool {
    spec_to_lowercase(name) == "default"@
}

/// Whether `name` names VS Code's built-in default profile (compared in
/// lowercase).
pub fn is_default_profile(name: &str) -> (res: bool)
    ensures
        res == is_default_name(name@),
{
    let lower = to_lowercase(name);
    same_text(lower.as_str(), "default")
}

/// Whether profile `name` can be managed: the default profile always can,
/// any other when `storage.json` (its text `storage`, when it could be read)
/// registers it.
pub open spec fn profile_known(name: Seq<char>, storage: Option<Seq<char>>) -> bool {
    is_default_name(name) || storage_registers(name, storage)
}

/// Whether profile `name` can be managed, given the text of `storage.json`.
pub fn known_profile(name: &str, storage: &Option<String>) -> (res: bool)
    ensures
        res == profile_known(name@, opt_view(*storage)),
{
    if is_default_profile(name) {
        return true;
    }
    match storage {
        Some(s) => profile_registered(name, s.as_str()),
        None => false,
    }
}

/// The arguments of `code` that select profile `name` and then give `rest`:
/// the default profile is selected by giving no profile at all.
pub open spec fn code_args(name: Seq<char>, rest: Seq<Seq<char>>) -> Seq<Seq<char>> {
    if is_default_name(name) {
        rest
    } else {
        seq!["--profile"@, name] + rest
    }
}

/// The arguments of `code` that list the extensions of profile `name`.
pub open spec fn list_args(name: Seq<char>) -> Seq<Seq<char>> {
    code_args(name, seq!["--list-extensions"@])
}

/// The arguments of `code` that uninstall extension `ext` from profile `name`.
pub open spec fn uninstall_args(name: Seq<char>, ext: Seq<char>) -> Seq<Seq<char>> {
    code_args(name, seq!["--uninstall-extension"@, ext])
}

fn texts(items: Vec<&str>) -> (res: Vec<String>)
    ensures
        res.deep_view() == items@.map_values(|s: &str| s@),
{
    let mut out: Vec<String> = Vec::new();
    let mut i: usize = 0;
    while i < items.len()
        invariant
            i <= items.len(),
            out.deep_view() == items@.take(i as int).map_values(|s: &str| s@),
        decreases items.len() - i,
    {
        let t = String::from_str(items[i]);
        let ghost prev = out.deep_view();
        out.push(t);
        assert(out.deep_view() =~= prev.push(t@));
        assert(items@.take(i + 1).map_values(|s: &str| s@) =~= items@.take(i as int).map_values(
            |s: &str| s@,
        ).push(items@[i as int]@));
        i = i + 1;
    }
    assert(items@.take(items.len() as int) =~= items@);
    out
}

/// The arguments of `code` that list the extensions of profile `name`.
pub fn list_extensions_args(name: &str) -> (res: Vec<String>)
    ensures
        res.deep_view() == list_args(name@),
{
    let args = if is_default_profile(name) {
        texts(vec!["--list-extensions"])
    } else {
        texts(vec!["--profile", name, "--list-extensions"])
    };
    proof {
        reveal_strlit("--profile");
        reveal_strlit("--list-extensions");
        assert(args.deep_view() =~= list_args(name@));
    }
    args
}

/// The arguments of `code` that uninstall extension `ext` from profile `name`.
pub fn uninstall_extension_args(name: &str, ext: &str) -> (res: Vec<String>)
    ensures
        res.deep_view() == uninstall_args(name@, ext@),
{
    let args = if is_default_profile(name) {
        texts(vec!["--uninstall-extension", ext])
    } else {
        texts(vec!["--profile", name, "--uninstall-extension", ext])
    };
    proof {
        reveal_strlit("--profile");
        reveal_strlit("--uninstall-extension");
        assert(args.deep_view() =~= uninstall_args(name@, ext@));
    }
    args
}

/// A line of the listing as an entry: the trimmed line, when not blank.
pub open spec fn keep_line(line: Seq<char>) -> Seq<Seq<char>> {
    if trim(line).len() > 0 {
        seq![trim(line)]
    } else {
        Seq::empty()
    }
}

/// The entries of the listing `s`, the current line having begun with `line`.
pub open spec fn listed_from(s: Seq<char>, line: Seq<char>) -> Seq<Seq<char>>
    decreases s.len(),
{
    if s.len() == 0 {
        keep_line(line)
    } else if s[0] == '\n' {
        keep_line(line) + listed_from(s.drop_first(), Seq::empty())
    } else {
        listed_from(s.drop_first(), line.push(s[0]))
    }
}

/// The extension identifiers that `code --list-extensions` printed as
/// `out`: one per line, trimmed, blank lines left out.
pub open spec fn listed_extensions(out: Seq<char>) -> Seq<Seq<char>> {
    listed_from(out, Seq::empty())
}

fn push_kept(result: &mut Vec<String>, line: &Vec<char>)
    ensures
        final(result).deep_view() == old(result).deep_view() + keep_line(line@),
{
    let t = trim_chars(line);
    if t.len() > 0 {
        let s = string_of(t.as_slice());
        result.push(s);
        assert(result.deep_view() =~= old(result).deep_view() + keep_line(line@));
    } else {
        assert(result.deep_view() =~= old(result).deep_view() + keep_line(line@));
    }
}

/// The extension identifiers in the output `out` of `code --list-extensions`.
pub fn parse_extension_list(out: &str) -> (res: Vec<String>)
    ensures
        res.deep_view() == listed_extensions(out@),
{
    let cs = chars_of(out);
    let n = cs.len();
    let mut result: Vec<String> = Vec::new();
    let mut line: Vec<char> = Vec::new();
    let mut i: usize = 0;
    assert(cs@.subrange(0, n as int) =~= cs@);
    assert(result.deep_view() + listed_extensions(cs@) =~= listed_extensions(cs@));
    while i < n
        invariant
            n == cs.len(),
            i <= n,
            result.deep_view() + listed_from(cs@.subrange(i as int, n as int), line@)
                == listed_extensions(cs@),
        decreases n - i,
    {
        let ghost tail = cs@.subrange(i as int, n as int);
        let ghost before = result.deep_view();
        let ghost old_line = line@;
        assert(tail[0] == cs@[i as int]);
        assert(tail.drop_first() =~= cs@.subrange(i + 1, n as int));
        if cs[i] == '\n' {
            push_kept(&mut result, &line);
            line = Vec::new();
            let ghost rest = listed_from(cs@.subrange(i + 1, n as int), Seq::empty());
            assert(line@ =~= Seq::<char>::empty());
            assert((before + keep_line(old_line)) + rest =~= before + (keep_line(old_line) + rest));
        } else {
            line.push(cs[i]);
            assert(line@ =~= old_line.push(cs@[i as int]));
        }
        i = i + 1;
    }
    push_kept(&mut result, &line);
    assert(cs@.subrange(n as int, n as int) =~= Seq::<char>::empty());
    result
}

/// Whether `small` occurs in `big` as a contiguous piece.
pub open spec fn is_infix_of(small: Seq<char>, big: Seq<char>) -> bool {
    exists|i: int|
        0 <= i && i + small.len() <= big.len() && #[trigger] big.subrange(i, i + small.len()) == small
}

fn matches_at(big: &Vec<char>, i: usize, small: &Vec<char>) -> (res: bool)
    requires
        i + small.len() <= big.len(),
    ensures
        res == (big@.subrange(i as int, i + small.len()) == small@),
{
    let mut j: usize = 0;
    while j < small.len()
        invariant
            i + small.len() <= big.len(),
            j <= small.len(),
            forall|k: int| 0 <= k < j ==> big@[i + k] == small@[k],
        decreases small.len() - j,
    {
        if big[i + j] != small[j] {
            assert(big@.subrange(i as int, i + small.len())[j as int] != small@[j as int]);
            return false;
        }
        j = j + 1;
    }
    assert(big@.subrange(i as int, i + small.len()) =~= small@);
    true
}

fn infix(small: &Vec<char>, big: &Vec<char>) -> (res: bool)
    ensures
        res == is_infix_of(small@, big@),
{
    if small.len() > big.len() {
        return false;
    }
    let last = big.len() - small.len();
    let mut i: usize = 0;
    loop
        invariant
            small.len() <= big.len(),
            last == big.len() - small.len(),
            i <= last,
            forall|k: int| 0 <= k < i ==> #[trigger] big@.subrange(k, k + small.len()) != small@,
        decreases last - i,
    {
        if matches_at(big, i, small) {
            return true;
        }
        if i == last {
            return false;
        }
        i = i + 1;
    }
}

/// Whether the identifiers `a` and `b` are near each other: ignoring case,
/// one occurs in the other.
pub open spec fn near(a: Seq<char>, b: Seq<char>) -> bool {
    let x = spec_to_lowercase(a);
    let y = spec_to_lowercase(b);
    is_infix_of(x, y) || is_infix_of(y, x)
}

/// The entries of `installed` near `id`, in order.
pub open spec fn near_matches(installed: Seq<Seq<char>>, id: Seq<char>) -> Seq<Seq<char>>
    decreases installed.len(),
{
    if installed.len() == 0 {
        Seq::empty()
    } else {
        let before = near_matches(installed.drop_last(), id);
        if near(installed.last(), id) {
            before.push(installed.last())
        } else {
            before
        }
    }
}

/// Whether the identifiers `a` and `b` are near each other.
pub fn is_near(a: &str, b: &str) -> (res: bool)
    ensures
        res == near(a@, b@),
{
    let x = to_lowercase(a);
    let y = to_lowercase(b);
    let xs = chars_of(x.as_str());
    let ys = chars_of(y.as_str());
    infix(&xs, &ys) || infix(&ys, &xs)
}

/// The installed extensions near `id`, in order.
pub fn near_extensions(installed: &Vec<String>, id: &str) -> (res: Vec<String>)
    ensures
        res.deep_view() == near_matches(installed.deep_view(), id@),
{
    let ghost dv = installed.deep_view();
    let mut out: Vec<String> = Vec::new();
    let mut i: usize = 0;
    while i < installed.len()
        invariant
            i <= installed.len(),
            dv == installed.deep_view(),
            out.deep_view() == near_matches(dv.take(i as int), id@),
        decreases installed.len() - i,
    {
        assert(dv.take(i + 1).drop_last() =~= dv.take(i as int));
        assert(dv.take(i + 1).last() == installed@[i as int]@);
        if is_near(installed[i].as_str(), id) {
            let e = installed[i].clone();
            let ghost prev = out.deep_view();
            out.push(e);
            assert(out.deep_view() =~= prev.push(e@));
        }
        i = i + 1;
    }
    assert(dv.take(installed.len() as int) =~= dv);
    out
}

/// The texts `items` separated by `, `.
pub open spec fn joined(items: Seq<Seq<char>>) -> Seq<char>
    decreases items.len(),
{
    if items.len() == 0 {
        Seq::empty()
    } else if items.len() == 1 {
        items[0]
    } else {
        joined(items.drop_last()) + ", "@ + items.last()
    }
}

/// The texts `items` separated by `, `.
pub fn join_texts(items: &Vec<String>) -> (res: String)
    ensures
        res@ == joined(items.deep_view()),
{
    let ghost dv = items.deep_view();
    if items.len() == 0 {
        return String::new();
    }
    let mut out = items[0].clone();
    assert(dv.take(1).drop_last() =~= Seq::<Seq<char>>::empty());
    let mut i: usize = 1;
    while i < items.len()
        invariant
            1 <= i <= items.len(),
            dv == items.deep_view(),
            out@ == joined(dv.take(i as int)),
        decreases items.len() - i,
    {
        assert(dv.take(i + 1).drop_last() =~= dv.take(i as int));
        assert(dv.take(i + 1).last() == items@[i as int]@);
        out.append(", ");
        out.append(items[i].as_str());
        i = i + 1;
    }
    assert(dv.take(items.len() as int) =~= dv);
    out
}

/// How many extensions the `extensions.json` text `text` of a profile lists:
/// the length of the array it holds, and none when it holds no array.
pub open spec fn extension_count_of(text: Seq<char>) -> nat {
    match crate::json::spec_json_parse(text) {
        Some(JsonView::Array(a)) => a.len(),
        _ => 0,
    }
}

/// How many extensions the `extensions.json` text `text` lists.
pub fn extension_count(text: &str) -> (res: usize)
    ensures
        res == extension_count_of(text@),
{
    match parse_json(text) {
        Ok(Json::Array(a)) => {
            proof {
                lemma_array_view(a);
            }
            a.len()
        },
        _ => 0,
    }
}

/// A row of the profile listing.
#[derive(Debug)]
pub struct ProfileRow {
    /// The profile's name.
    pub name: String,
    /// The profile's directory name under `profiles/`, when recorded.
    pub location: Option<String>,
    /// The profile's icon, empty when there is none.
    pub icon: String,
    /// Whether this is VS Code's built-in default profile.
    pub is_default: bool,
}

/// The model of a [`ProfileRow`].
pub struct ProfileRowView {
    pub name: Seq<char>,
    pub location: Option<Seq<char>>,
    pub icon: Seq<char>,
    pub is_default: bool,
}

impl View for ProfileRow {
    type V = ProfileRowView;

    open spec fn view(&self) -> ProfileRowView {
        ProfileRowView {
            name: self.name@,
            location: match self.location {
                Some(l) => Some(l@),
                None => None,
            },
            icon: self.icon@,
            is_default: self.is_default,
        }
    }
}

/// The row of a `storage.json` profile entry, when the entry has a name.
pub open spec fn row_of(e: JsonView) -> Option<ProfileRowView> {
    match e.get("name"@) {
        Some(JsonView::Str(n)) => Some(
            ProfileRowView {
                name: n,
                location: match e.get("location"@) {
                    Some(JsonView::Str(l)) => Some(l),
                    _ => None,
                },
                icon: str_or_empty(e.get("icon"@)),
                is_default: false,
            },
        ),
        _ => None,
    }
}

/// The rows of the entries that have a name, in order.
pub open spec fn rows_of(entries: Seq<JsonView>) -> Seq<ProfileRowView>
    decreases entries.len(),
{
    if entries.len() == 0 {
        Seq::empty()
    } else {
        let before = rows_of(entries.drop_last());
        match row_of(entries.last()) {
            Some(r) => before.push(r),
            None => before,
        }
    }
}

/// The row of the built-in default profile.
pub open spec fn default_row() -> ProfileRowView {
    ProfileRowView { name: "Default"@, location: None, icon: Seq::empty(), is_default: true }
}

/// The profile listing for the `storage.json` text `storage`: the default
/// profile first, then every named profile that `storage.json` registers.
pub open spec fn listed_profiles(storage: Seq<char>) -> Seq<ProfileRowView> {
    seq![default_row()] + match profiles_of(storage) {
        Some(a) => rows_of(a),
        None => Seq::empty(),
    }
}

/// The models of `rows`.
pub open spec fn rows_view(rows: Seq<ProfileRow>) -> Seq<ProfileRowView> {
    rows.map_values(|r: ProfileRow| r@)
}

fn string_member(e: &Json, key: &str) -> (res: Option<String>)
    ensures
        match res {
            Some(s) => e@.get(key@) == Some(JsonView::Str(s@)),
            None => !(e@.get(key@) matches Some(JsonView::Str(_))),
        },
{
    match json_get(e, key) {
        Some(v) => match json_as_str(v) {
            Some(s) => Some(s.clone()),
            None => None,
        },
        None => None,
    }
}

fn row_for(e: &Json) -> (res: Option<ProfileRow>)
    ensures
        match res {
            Some(r) => row_of(e@) == Some(r@),
            None => row_of(e@) is None,
        },
{
    let name = match string_member(e, "name") {
        Some(n) => n,
        None => return None,
    };
    let location = string_member(e, "location");
    let icon = match string_member(e, "icon") {
        Some(i) => i,
        None => String::new(),
    };
    Some(ProfileRow { name, location, icon, is_default: false })
}

/// The listing of profiles for the `storage.json` text `storage` (see
/// [`listed_profiles`]).
pub fn list_profiles(storage: &str) -> (res: Vec<ProfileRow>)
    ensures
        rows_view(res@) == listed_profiles(storage@),
{
    let mut out: Vec<ProfileRow> = Vec::new();
    out.push(ProfileRow { name: String::from_str("Default"), location: None, icon: String::new(), is_default: true });
    proof {
        reveal_strlit("Default");
        assert(rows_view(out@) =~= seq![default_row()]);
    }
    let root = match parse_json(storage) {
        Ok(r) => r,
        Err(_) => {
            assert(listed_profiles(storage@) =~= seq![default_row()]);
            return out;
        },
    };
    let entries = match entries_in(&root) {
        Some(a) => a,
        None => {
            assert(listed_profiles(storage@) =~= seq![default_row()]);
            return out;
        },
    };
    let ghost iv = items_view(*entries);
    let mut i: usize = 0;
    while i < entries.len()
        invariant
            i <= entries.len(),
            iv == items_view(*entries),
            rows_view(out@) == seq![default_row()] + rows_of(iv.take(i as int)),
        decreases entries.len() - i,
    {
        assert(iv.take(i + 1).drop_last() =~= iv.take(i as int));
        assert(iv.take(i + 1).last() == entries@[i as int]@);
        match row_for(&entries[i]) {
            Some(r) => {
                let ghost prev = out@;
                out.push(r);
                assert(rows_view(out@) =~= rows_view(prev).push(r@));
                assert(rows_view(out@) =~= seq![default_row()] + rows_of(iv.take(i + 1)));
            },
            None => {},
        }
        i = i + 1;
    }
    assert(iv.take(entries.len() as int) =~= iv);
    out
}

/// Whether `v` holds the text `s`.
pub fn contains_text(v: &Vec<String>, s: &str) -> (res: bool)
    ensures
        res == v.deep_view().contains(s@),
{
    let ghost dv = v.deep_view();
    let mut i: usize = 0;
    while i < v.len()
        invariant
            i <= v.len(),
            dv == v.deep_view(),
            forall|k: int| 0 <= k < i ==> dv[k] != s@,
        decreases v.len() - i,
    {
        if same_text(v[i].as_str(), s) {
            assert(dv[i as int] == s@);
            return true;
        }
        i = i + 1;
    }
    false
}

// ── Removal sessions ────────────────────────────────────────────────────────

/// Outside work that a removal asks of its caller.
pub enum ManageAction {
    /// Read `storage.json`; answer with [`ManageEvent::StorageRead`].
    ReadStorage,
    /// Run `code` with these arguments; answer with [`ManageEvent::CodeRan`].
    RunCode(Vec<String>),
    /// Ask this yes-or-no question; answer with [`ManageEvent::Answer`].
    Confirm(String),
    /// Show this line; answer with [`ManageEvent::Continue`].
    Notice(String),
    /// The removal is over: the closing line on success, or the error.
    Finish(Result<String, String>),
}

/// The outcome of a [`ManageAction`].
pub enum ManageEvent {
    /// The line was shown.
    Continue,
    /// The text of `storage.json`, or `None` when it could not be read.
    StorageRead(Option<String>),
    /// What `code` printed when it succeeded; `None` when it failed.
    CodeRan(Option<String>),
    /// Whether the user said yes.
    Answer(bool),
}

/// The model of a [`ManageAction`].
pub enum ManageActionView {
    ReadStorage,
    RunCode(Seq<Seq<char>>),
    Confirm(Seq<char>),
    Notice(Seq<char>),
    Finish(Result<Seq<char>, Seq<char>>),
}

/// The model of a [`ManageEvent`].
pub enum ManageEventView {
    Continue,
    StorageRead(Option<Seq<char>>),
    CodeRan(Option<Seq<char>>),
    Answer(bool),
}

impl View for ManageAction {
    type V = ManageActionView;

    open spec fn view(&self) -> ManageActionView {
        match self {
            ManageAction::ReadStorage => ManageActionView::ReadStorage,
            ManageAction::RunCode(a) => ManageActionView::RunCode(a.deep_view()),
            ManageAction::Confirm(q) => ManageActionView::Confirm(q@),
            ManageAction::Notice(m) => ManageActionView::Notice(m@),
            ManageAction::Finish(r) => ManageActionView::Finish(
                match r {
                    Ok(m) => Ok(m@),
                    Err(m) => Err(m@),
                },
            ),
        }
    }
}

impl View for ManageEvent {
    type V = ManageEventView;

    open spec fn view(&self) -> ManageEventView {
        match self {
            ManageEvent::Continue => ManageEventView::Continue,
            ManageEvent::StorageRead(t) => ManageEventView::StorageRead(opt_view(*t)),
            ManageEvent::CodeRan(o) => ManageEventView::CodeRan(opt_view(*o)),
            ManageEvent::Answer(b) => ManageEventView::Answer(*b),
        }
    }
}

/// The error for a profile that is neither the default one nor registered.
pub open spec fn unknown_profile_message(name: Seq<char>) -> Seq<char> {
    "Profile '"@ + name + "' not found in storage.json"@
}

/// The error for a listing of extensions that failed.
pub open spec fn list_failure_message(name: Seq<char>) -> Seq<char> {
    "Could not list the extensions of profile '"@ + name + "'"@
}

/// The error for an extension that is not installed, with the installed
/// extensions near it as a hint.
pub open spec fn not_installed_message(name: Seq<char>, ext: Seq<char>, near: Seq<Seq<char>>) -> Seq<char> {
    "Extension '"@ + ext + "' is not installed in profile '"@ + name + "'."@ + if near.len() > 0 {
        " Did you mean: "@ + joined(near) + "?"@
    } else {
        Seq::empty()
    }
}

/// The question before uninstalling extension `ext` from profile `name`.
pub open spec fn remove_question(name: Seq<char>, ext: Seq<char>) -> Seq<char> {
    "Uninstall "@ + ext + " from profile '"@ + name + "'? [y/N] "@
}

/// What a dry run says instead of uninstalling `ext` from profile `name`.
pub open spec fn dry_run_line(name: Seq<char>, ext: Seq<char>) -> Seq<char> {
    "[dry-run] would uninstall "@ + ext + " from profile '"@ + name + "'"@
}

/// The closing line of a removal that uninstalled `ext`.
pub open spec fn removed_message(name: Seq<char>, ext: Seq<char>) -> Seq<char> {
    "Removed "@ + ext + " from profile '"@ + name + "'."@
}

/// The error of a removal whose uninstallation failed.
pub open spec fn remove_failed_message(name: Seq<char>, ext: Seq<char>) -> Seq<char> {
    "Failed to uninstall "@ + ext + " from profile '"@ + name + "'."@
}

/// The closing line when the user said no.
pub open spec fn cancelled_message() -> Seq<char> {
    "Cancelled."@
}

/// Where a removal of one extension stands.
#[derive(Clone, Copy, Debug, PartialEq, Eq, Structural)]
pub enum RemoveStage {
    /// Waiting for `storage.json`.
    CheckProfile,
    /// Waiting for the listing of the profile's extensions.
    List,
    /// Waiting for the user's confirmation.
    Confirm,
    /// Waiting for `code` to uninstall the extension.
    Uninstall,
    /// The removal is over.
    Finished,
}

/// The model of a [`RemoveSession`]; `listed` is what the listing of the
/// profile's extensions gave, once it came.
pub struct RemoveView {
    pub name: Seq<char>,
    pub ext: Seq<char>,
    pub force: bool,
    pub dry_run: bool,
    pub stage: RemoveStage,
    pub listed: Seq<Seq<char>>,
}

/// Whether `e` is the outcome of the action that stage `stage` waits for.
pub open spec fn remove_awaits(stage: RemoveStage, e: ManageEventView) -> bool {
    match stage {
        RemoveStage::CheckProfile => e is StorageRead,
        RemoveStage::List | RemoveStage::Uninstall => e is CodeRan,
        RemoveStage::Confirm => e is Answer,
        RemoveStage::Finished => false,
    }
}

/// The shape every removal keeps: it asks and uninstalls only outside dry
/// runs, and only for an extension that the listing gave.
pub open spec fn remove_wf(s: RemoveView) -> bool {
    (s.stage == RemoveStage::Confirm || s.stage == RemoveStage::Uninstall) ==> !s.dry_run
        && s.listed.contains(s.ext)
}

/// How the removal of extension `ext` from profile `name` begins.
pub open spec fn start_remove_view(name: Seq<char>, ext: Seq<char>, force: bool, dry_run: bool) -> (RemoveView, ManageActionView) {
    (
        RemoveView { name, ext, force, dry_run, stage: RemoveStage::CheckProfile, listed: Seq::empty() },
        ManageActionView::ReadStorage,
    )
}

/// The removal `s` over, with outcome `r`.
pub open spec fn remove_finish(s: RemoveView, r: Result<Seq<char>, Seq<char>>) -> (RemoveView, ManageActionView) {
    (RemoveView { stage: RemoveStage::Finished, ..s }, ManageActionView::Finish(r))
}

/// What the removal `s` does on the outcome `e` of the action it waited for.
///
/// The profile must be the default one or registered; the extension must be
/// among those `code` lists for it (else the error names the installed
/// extensions near it). A dry run then only says what it would do; with
/// `force` the extension is uninstalled at once, otherwise after the user
/// says yes.
pub open spec fn remove_next(s: RemoveView, e: ManageEventView) -> (RemoveView, ManageActionView) {
    match (s.stage, e) {
        (RemoveStage::CheckProfile, ManageEventView::StorageRead(t)) => {
            if profile_known(s.name, t) {
                (RemoveView { stage: RemoveStage::List, ..s }, ManageActionView::RunCode(list_args(s.name)))
            } else {
                remove_finish(s, Err(unknown_profile_message(s.name)))
            }
        },
        (RemoveStage::List, ManageEventView::CodeRan(out)) => match out {
            None => remove_finish(s, Err(list_failure_message(s.name))),
            Some(o) => {
                let inst = listed_extensions(o);
                let s2 = RemoveView { listed: inst, ..s };
                if !inst.contains(s.ext) {
                    remove_finish(s2, Err(not_installed_message(s.name, s.ext, near_matches(inst, s.ext))))
                } else if s.dry_run {
                    remove_finish(s2, Ok(dry_run_line(s.name, s.ext)))
                } else if s.force {
                    (
                        RemoveView { stage: RemoveStage::Uninstall, ..s2 },
                        ManageActionView::RunCode(uninstall_args(s.name, s.ext)),
                    )
                } else {
                    (
                        RemoveView { stage: RemoveStage::Confirm, ..s2 },
                        ManageActionView::Confirm(remove_question(s.name, s.ext)),
                    )
                }
            },
        },
        (RemoveStage::Confirm, ManageEventView::Answer(yes)) => {
            if yes {
                (
                    RemoveView { stage: RemoveStage::Uninstall, ..s },
                    ManageActionView::RunCode(uninstall_args(s.name, s.ext)),
                )
            } else {
                remove_finish(s, Ok(cancelled_message()))
            }
        },
        (RemoveStage::Uninstall, ManageEventView::CodeRan(r)) => match r {
            Some(_) => remove_finish(s, Ok(removed_message(s.name, s.ext))),
            None => remove_finish(s, Err(remove_failed_message(s.name, s.ext))),
        },
        _ => (s, ManageActionView::ReadStorage),
    }
}

/// The removal of one extension from a profile, in progress. Only
/// [`start_remove`] starts one.
pub struct RemoveSession {
    name: String,
    ext: String,
    force: bool,
    dry_run: bool,
    stage: RemoveStage,
    listed: Vec<String>,
}

impl View for RemoveSession {
    type V = RemoveView;

    closed spec fn view(&self) -> RemoveView {
        RemoveView {
            name: self.name@,
            ext: self.ext@,
            force: self.force,
            dry_run: self.dry_run,
            stage: self.stage,
            listed: self.listed.deep_view(),
        }
    }
}

/// Begin the removal of extension `ext` from profile `name`: `force` skips
/// the confirmation, a dry run uninstalls nothing. Returns the session and
/// the first action.
pub fn start_remove(name: String, ext: String, force: bool, dry_run: bool) -> (res: (RemoveSession, ManageAction))
    ensures
        remove_wf(res.0@),
        (res.0@, res.1@) == start_remove_view(name@, ext@, force, dry_run),
{
    let session = RemoveSession { name, ext, force, dry_run, stage: RemoveStage::CheckProfile, listed: Vec::new() };
    assert(session@.listed =~= Seq::<Seq<char>>::empty());
    (session, ManageAction::ReadStorage)
}

fn quoted_message(a: &str, b: &str, c: &str, d: &str, e: &str) -> (res: String)
    ensures
        res@ == a@ + b@ + c@ + d@ + e@,
{
    let mut m = String::from_str(a);
    m.append(b);
    m.append(c);
    m.append(d);
    m.append(e);
    m
}

fn not_installed_error(name: &str, ext: &str, installed: &Vec<String>) -> (res: String)
    ensures
        res@ == not_installed_message(name@, ext@, near_matches(installed.deep_view(), ext@)),
{
    let mut m = quoted_message("Extension '", ext, "' is not installed in profile '", name, "'.");
    let near = near_extensions(installed, ext);
    if near.len() > 0 {
        let j = join_texts(&near);
        m.append(" Did you mean: ");
        m.append(j.as_str());
        m.append("?");
    }
    proof {
        let n = near_matches(installed.deep_view(), ext@);
        if n.len() > 0 {
            assert(m@ =~= not_installed_message(name@, ext@, n));
        } else {
            assert(m@ =~= not_installed_message(name@, ext@, n));
        }
    }
    m
}

impl RemoveSession {
    fn finish(&mut self, r: Result<String, String>) -> (a: ManageAction)
        ensures
            (final(self)@, a@) == remove_finish(
                old(self)@,
                match r {
                    Ok(m) => Ok(m@),
                    Err(m) => Err(m@),
                },
            ),
    {
        self.stage = RemoveStage::Finished;
        ManageAction::Finish(r)
    }

    /// Take the outcome `event` of the action the session waits for and
    /// return the next action.
    pub fn step(&mut self, event: ManageEvent) -> (action: ManageAction)
        requires
            remove_wf(old(self)@),
            remove_awaits(old(self)@.stage, event@),
        ensures
            remove_wf(final(self)@),
            (final(self)@, action@) == remove_next(old(self)@, event@),
    {
        match (self.stage, event) {
            (RemoveStage::CheckProfile, ManageEvent::StorageRead(t)) => {
                if known_profile(self.name.as_str(), &t) {
                    self.stage = RemoveStage::List;
                    ManageAction::RunCode(list_extensions_args(self.name.as_str()))
                } else {
                    let m = quoted_message("Profile '", self.name.as_str(), "' not found in storage.json", "", "");
                    proof {
                        reveal_strlit("");
                        assert(m@ =~= unknown_profile_message(self@.name));
                    }
                    self.finish(Err(m))
                }
            },
            (RemoveStage::List, ManageEvent::CodeRan(out)) => match out {
                None => {
                    let m = quoted_message("Could not list the extensions of profile '", self.name.as_str(), "'", "", "");
                    proof {
                        reveal_strlit("");
                        assert(m@ =~= list_failure_message(self@.name));
                    }
                    self.finish(Err(m))
                },
                Some(o) => {
                    let inst = parse_extension_list(o.as_str());
                    let listed = contains_text(&inst, self.ext.as_str());
                    if !listed {
                        let m = not_installed_error(self.name.as_str(), self.ext.as_str(), &inst);
                        self.listed = inst;
                        self.finish(Err(m))
                    } else if self.dry_run {
                        let m = quoted_message("[dry-run] would uninstall ", self.ext.as_str(), " from profile '", self.name.as_str(), "'");
                        self.listed = inst;
                        self.finish(Ok(m))
                    } else if self.force {
                        self.listed = inst;
                        self.stage = RemoveStage::Uninstall;
                        ManageAction::RunCode(uninstall_extension_args(self.name.as_str(), self.ext.as_str()))
                    } else {
                        self.listed = inst;
                        self.stage = RemoveStage::Confirm;
                        let q = quoted_message("Uninstall ", self.ext.as_str(), " from profile '", self.name.as_str(), "'? [y/N] ");
                        ManageAction::Confirm(q)
                    }
                },
            },
            (RemoveStage::Confirm, ManageEvent::Answer(yes)) => {
                if yes {
                    self.stage = RemoveStage::Uninstall;
                    ManageAction::RunCode(uninstall_extension_args(self.name.as_str(), self.ext.as_str()))
                } else {
                    self.finish(Ok(String::from_str("Cancelled.")))
                }
            },
            (RemoveStage::Uninstall, ManageEvent::CodeRan(r)) => match r {
                Some(_) => {
                    let m = quoted_message("Removed ", self.ext.as_str(), " from profile '", self.name.as_str(), "'.");
                    self.finish(Ok(m))
                },
                None => {
                    let m = quoted_message("Failed to uninstall ", self.ext.as_str(), " from profile '", self.name.as_str(), "'.");
                    self.finish(Err(m))
                },
            },
            _ => {
                assert(false);
                ManageAction::ReadStorage
            },
        }
    }

    /// The stage the session is in.
    pub fn stage(&self) -> (res: RemoveStage)
        ensures
            res == self@.stage,
    {
        self.stage
    }
}

/// The closing line when the profile has no extension.
pub open spec fn nothing_message(name: Seq<char>) -> Seq<char> {
    "No extensions installed in profile '"@ + name + "'. Nothing to do."@
}

/// The one question before uninstalling all `n` extensions of profile `name`.
pub open spec fn bulk_question(name: Seq<char>, n: nat) -> Seq<char> {
    "Uninstall all "@ + decimal(n) + " extensions from profile '"@ + name + "'? [y/N] "@
}

/// The closing line of a dry run over `n` extensions.
pub open spec fn dry_run_summary(name: Seq<char>, n: nat) -> Seq<char> {
    "[dry-run] "@ + decimal(n) + " extension(s) would be uninstalled from profile '"@ + name + "'."@
}

/// The closing line of an uninstallation that removed `r` of `n` extensions.
pub open spec fn uninstall_summary(name: Seq<char>, r: nat, n: nat) -> Seq<char> {
    "Uninstalled "@ + decimal(r) + " of "@ + decimal(n) + " extension(s) from profile '"@ + name
        + "'."@
}

/// The error of an uninstallation in which some removals failed.
pub open spec fn failed_summary(failed: Seq<Seq<char>>) -> Seq<char> {
    "Failed to uninstall: "@ + joined(failed)
}

/// Where the uninstallation of all extensions of a profile stands.
#[derive(Clone, Copy, Debug, PartialEq, Eq, Structural)]
pub enum UninstallStage {
    /// Waiting for `storage.json`.
    CheckProfile,
    /// Waiting for the listing of the profile's extensions.
    List,
    /// Waiting for a dry-run line to be shown.
    DryRunNotice,
    /// Waiting for the one confirmation for all extensions.
    ConfirmAll,
    /// Waiting for the confirmation for the current extension.
    ConfirmOne,
    /// Waiting for `code` to uninstall the current extension.
    Uninstall,
    /// The uninstallation is over.
    Finished,
}

/// The model of an [`UninstallSession`]: the extensions listed, the position
/// of the current one, and those removed, failed and skipped so far.
pub struct UninstallView {
    pub name: Seq<char>,
    pub force: bool,
    pub dry_run: bool,
    pub stage: UninstallStage,
    pub exts: Seq<Seq<char>>,
    pub next: nat,
    pub removed: Seq<Seq<char>>,
    pub failed: Seq<Seq<char>>,
    pub skipped: Seq<Seq<char>>,
}

/// Whether `e` is the outcome of the action that stage `stage` waits for.
pub open spec fn uninstall_awaits(stage: UninstallStage, e: ManageEventView) -> bool {
    match stage {
        UninstallStage::CheckProfile => e is StorageRead,
        UninstallStage::List | UninstallStage::Uninstall => e is CodeRan,
        UninstallStage::DryRunNotice => e is Continue,
        UninstallStage::ConfirmAll | UninstallStage::ConfirmOne => e is Answer,
        UninstallStage::Finished => false,
    }
}

/// The shape every uninstallation keeps: the current extension is one of
/// those listed, the extensions before it are accounted for exactly once,
/// and nothing is asked or uninstalled in a dry run.
pub open spec fn uninstall_wf(s: UninstallView) -> bool {
    &&& s.next <= s.exts.len()
    &&& (s.stage == UninstallStage::DryRunNotice || s.stage == UninstallStage::ConfirmAll
        || s.stage == UninstallStage::ConfirmOne || s.stage == UninstallStage::Uninstall)
        ==> s.next < s.exts.len()
    &&& (s.stage == UninstallStage::ConfirmAll || s.stage == UninstallStage::ConfirmOne
        || s.stage == UninstallStage::Uninstall) ==> !s.dry_run
    &&& (s.stage == UninstallStage::ConfirmOne || s.stage == UninstallStage::Uninstall)
        ==> s.removed.len() + s.failed.len() + s.skipped.len() == s.next
    &&& s.stage == UninstallStage::ConfirmAll ==> s.next == 0 && s.removed.len() == 0
        && s.failed.len() == 0 && s.skipped.len() == 0 && s.force
    &&& s.stage == UninstallStage::ConfirmOne ==> !s.force
    &&& (s.stage == UninstallStage::CheckProfile || s.stage == UninstallStage::List) ==> s.next
        == 0 && s.removed.len() == 0 && s.failed.len() == 0 && s.skipped.len() == 0
}

/// How the uninstallation of all extensions of profile `name` begins.
pub open spec fn start_uninstall_view(name: Seq<char>, force: bool, dry_run: bool) -> (UninstallView, ManageActionView) {
    (
        UninstallView {
            name,
            force,
            dry_run,
            stage: UninstallStage::CheckProfile,
            exts: Seq::empty(),
            next: 0,
            removed: Seq::empty(),
            failed: Seq::empty(),
            skipped: Seq::empty(),
        },
        ManageActionView::ReadStorage,
    )
}

/// The uninstallation `s` over, with outcome `r`.
pub open spec fn uninstall_finish(s: UninstallView, r: Result<Seq<char>, Seq<char>>) -> (UninstallView, ManageActionView) {
    (UninstallView { stage: UninstallStage::Finished, ..s }, ManageActionView::Finish(r))
}

/// Go on with the extension at position `j`, or close the uninstallation.
pub open spec fn uninstall_from(s: UninstallView, j: nat) -> (UninstallView, ManageActionView) {
    if j < s.exts.len() {
        if s.force {
            (
                UninstallView { stage: UninstallStage::Uninstall, next: j, ..s },
                ManageActionView::RunCode(uninstall_args(s.name, s.exts[j as int])),
            )
        } else {
            (
                UninstallView { stage: UninstallStage::ConfirmOne, next: j, ..s },
                ManageActionView::Confirm(remove_question(s.name, s.exts[j as int])),
            )
        }
    } else if s.failed.len() == 0 {
        uninstall_finish(
            UninstallView { next: j, ..s },
            Ok(uninstall_summary(s.name, s.removed.len(), s.exts.len())),
        )
    } else {
        uninstall_finish(UninstallView { next: j, ..s }, Err(failed_summary(s.failed)))
    }
}

/// What the uninstallation `s` does on the outcome `e` of the action it
/// waited for.
///
/// The profile must be the default one or registered. With no extension
/// there is nothing to do; a dry run shows a line for each extension and
/// uninstalls none; with `force` one question covers all extensions,
/// otherwise each is asked for in turn (a no skips it). The extensions are
/// uninstalled in the order listed; the uninstallation fails when any
/// removal failed.
pub open spec fn uninstall_next(s: UninstallView, e: ManageEventView) -> (UninstallView, ManageActionView) {
    match (s.stage, e) {
        (UninstallStage::CheckProfile, ManageEventView::StorageRead(t)) => {
            if profile_known(s.name, t) {
                (UninstallView { stage: UninstallStage::List, ..s }, ManageActionView::RunCode(list_args(s.name)))
            } else {
                uninstall_finish(s, Err(unknown_profile_message(s.name)))
            }
        },
        (UninstallStage::List, ManageEventView::CodeRan(out)) => match out {
            None => uninstall_finish(s, Err(list_failure_message(s.name))),
            Some(o) => {
                let exts = listed_extensions(o);
                let s2 = UninstallView { exts, next: 0, ..s };
                if exts.len() == 0 {
                    uninstall_finish(s2, Ok(nothing_message(s.name)))
                } else if s.dry_run {
                    (
                        UninstallView { stage: UninstallStage::DryRunNotice, ..s2 },
                        ManageActionView::Notice(dry_run_line(s.name, exts[0])),
                    )
                } else if s.force {
                    (
                        UninstallView { stage: UninstallStage::ConfirmAll, ..s2 },
                        ManageActionView::Confirm(bulk_question(s.name, exts.len())),
                    )
                } else {
                    uninstall_from(s2, 0)
                }
            },
        },
        (UninstallStage::DryRunNotice, ManageEventView::Continue) => {
            let j = s.next + 1;
            if j < s.exts.len() {
                (
                    UninstallView { next: j, ..s },
                    ManageActionView::Notice(dry_run_line(s.name, s.exts[j as int])),
                )
            } else {
                uninstall_finish(UninstallView { next: j, ..s }, Ok(dry_run_summary(s.name, s.exts.len())))
            }
        },
        (UninstallStage::ConfirmAll, ManageEventView::Answer(yes)) => {
            if yes {
                uninstall_from(s, 0)
            } else {
                uninstall_finish(s, Ok(cancelled_message()))
            }
        },
        (UninstallStage::ConfirmOne, ManageEventView::Answer(yes)) => {
            if yes {
                (
                    UninstallView { stage: UninstallStage::Uninstall, ..s },
                    ManageActionView::RunCode(uninstall_args(s.name, s.exts[s.next as int])),
                )
            } else {
                uninstall_from(
                    UninstallView { skipped: s.skipped.push(s.exts[s.next as int]), ..s },
                    s.next + 1,
                )
            }
        },
        (UninstallStage::Uninstall, ManageEventView::CodeRan(r)) => {
            let x = s.exts[s.next as int];
            let s2 = match r {
                Some(_) => UninstallView { removed: s.removed.push(x), ..s },
                None => UninstallView { failed: s.failed.push(x), ..s },
            };
            uninstall_from(s2, s.next + 1)
        },
        _ => (s, ManageActionView::ReadStorage),
    }
}

/// The uninstallation of all extensions of a profile, in progress. Only
/// [`start_uninstall`] starts one.
pub struct UninstallSession {
    name: String,
    force: bool,
    dry_run: bool,
    stage: UninstallStage,
    exts: Vec<String>,
    next: usize,
    removed: Vec<String>,
    failed: Vec<String>,
    skipped: Vec<String>,
}

impl View for UninstallSession {
    type V = UninstallView;

    closed spec fn view(&self) -> UninstallView {
        UninstallView {
            name: self.name@,
            force: self.force,
            dry_run: self.dry_run,
            stage: self.stage,
            exts: self.exts.deep_view(),
            next: self.next as nat,
            removed: self.removed.deep_view(),
            failed: self.failed.deep_view(),
            skipped: self.skipped.deep_view(),
        }
    }
}

/// Begin the uninstallation of all extensions of profile `name`: `force`
/// asks once for all, a dry run uninstalls nothing. Returns the session and
/// the first action.
pub fn start_uninstall(name: String, force: bool, dry_run: bool) -> (res: (UninstallSession, ManageAction))
    ensures
        uninstall_wf(res.0@),
        (res.0@, res.1@) == start_uninstall_view(name@, force, dry_run),
{
    let session = UninstallSession {
        name,
        force,
        dry_run,
        stage: UninstallStage::CheckProfile,
        exts: Vec::new(),
        next: 0,
        removed: Vec::new(),
        failed: Vec::new(),
        skipped: Vec::new(),
    };
    assert(session@.exts =~= Seq::<Seq<char>>::empty());
    assert(session@.removed =~= Seq::<Seq<char>>::empty());
    assert(session@.failed =~= Seq::<Seq<char>>::empty());
    assert(session@.skipped =~= Seq::<Seq<char>>::empty());
    (session, ManageAction::ReadStorage)
}

fn push_text(v: &mut Vec<String>, s: String)
    ensures
        final(v).deep_view() == old(v).deep_view().push(s@),
{
    v.push(s);
    assert(v.deep_view() =~= old(v).deep_view().push(s@));
}

fn count_message(a: &str, n: usize, b: &str, name: &str, c: &str) -> (res: String)
    ensures
        res@ == a@ + decimal(n as nat) + b@ + name@ + c@,
{
    let d = decimal_string(n as u64);
    let mut m = String::from_str(a);
    m.append(d.as_str());
    m.append(b);
    m.append(name);
    m.append(c);
    m
}

impl UninstallSession {
    fn finish(&mut self, r: Result<String, String>) -> (a: ManageAction)
        ensures
            (final(self)@, a@) == uninstall_finish(
                old(self)@,
                match r {
                    Ok(m) => Ok(m@),
                    Err(m) => Err(m@),
                },
            ),
    {
        self.stage = UninstallStage::Finished;
        ManageAction::Finish(r)
    }

    fn current(&self) -> (res: String)
        requires
            self@.next < self@.exts.len(),
        ensures
            res@ == self@.exts[self@.next as int],
    {
        self.exts[self.next].clone()
    }

    fn go_from(&mut self, j: usize) -> (a: ManageAction)
        requires
            j <= old(self)@.exts.len(),
            !old(self)@.dry_run,
            old(self)@.removed.len() + old(self)@.failed.len() + old(self)@.skipped.len() == j,
        ensures
            uninstall_wf(final(self)@),
            (final(self)@, a@) == uninstall_from(old(self)@, j as nat),
    {
        self.next = j;
        if j < self.exts.len() {
            let x = self.current();
            if self.force {
                self.stage = UninstallStage::Uninstall;
                ManageAction::RunCode(uninstall_extension_args(self.name.as_str(), x.as_str()))
            } else {
                self.stage = UninstallStage::ConfirmOne;
                let q = quoted_message("Uninstall ", x.as_str(), " from profile '", self.name.as_str(), "'? [y/N] ");
                ManageAction::Confirm(q)
            }
        } else if self.failed.len() == 0 {
            let r = decimal_string(self.removed.len() as u64);
            let mut m = String::from_str("Uninstalled ");
            m.append(r.as_str());
            let tail = count_message(" of ", self.exts.len(), " extension(s) from profile '", self.name.as_str(), "'.");
            m.append(tail.as_str());
            proof {
                assert(m@ =~= uninstall_summary(self@.name, self@.removed.len(), self@.exts.len()));
            }
            self.finish(Ok(m))
        } else {
            let mut m = String::from_str("Failed to uninstall: ");
            let j = join_texts(&self.failed);
            m.append(j.as_str());
            self.finish(Err(m))
        }
    }

    /// Take the outcome `event` of the action the session waits for and
    /// return the next action.
    pub fn step(&mut self, event: ManageEvent) -> (action: ManageAction)
        requires
            uninstall_wf(old(self)@),
            uninstall_awaits(old(self)@.stage, event@),
        ensures
            uninstall_wf(final(self)@),
            (final(self)@, action@) == uninstall_next(old(self)@, event@),
    {
        match (self.stage, event) {
            (UninstallStage::CheckProfile, ManageEvent::StorageRead(t)) => {
                if known_profile(self.name.as_str(), &t) {
                    self.stage = UninstallStage::List;
                    ManageAction::RunCode(list_extensions_args(self.name.as_str()))
                } else {
                    let m = quoted_message("Profile '", self.name.as_str(), "' not found in storage.json", "", "");
                    proof {
                        reveal_strlit("");
                        assert(m@ =~= unknown_profile_message(self@.name));
                    }
                    self.finish(Err(m))
                }
            },
            (UninstallStage::List, ManageEvent::CodeRan(out)) => match out {
                None => {
                    let m = quoted_message("Could not list the extensions of profile '", self.name.as_str(), "'", "", "");
                    proof {
                        reveal_strlit("");
                        assert(m@ =~= list_failure_message(self@.name));
                    }
                    self.finish(Err(m))
                },
                Some(o) => {
                    self.exts = parse_extension_list(o.as_str());
                    self.next = 0;
                    if self.exts.len() == 0 {
                        let m = quoted_message("No extensions installed in profile '", self.name.as_str(), "'. Nothing to do.", "", "");
                        proof {
                            reveal_strlit("");
                            assert(m@ =~= nothing_message(self@.name));
                        }
                        self.finish(Ok(m))
                    } else if self.dry_run {
                        self.stage = UninstallStage::DryRunNotice;
                        let x = self.current();
                        let m = quoted_message("[dry-run] would uninstall ", x.as_str(), " from profile '", self.name.as_str(), "'");
                        ManageAction::Notice(m)
                    } else if self.force {
                        self.stage = UninstallStage::ConfirmAll;
                        let q = count_message("Uninstall all ", self.exts.len(), " extensions from profile '", self.name.as_str(), "'? [y/N] ");
                        ManageAction::Confirm(q)
                    } else {
                        self.go_from(0)
                    }
                },
            },
            (UninstallStage::DryRunNotice, ManageEvent::Continue) => {
                let n = self.exts.len();
                assert(n == self@.exts.len());
                self.next = self.next + 1;
                if self.next < self.exts.len() {
                    let x = self.current();
                    let m = quoted_message("[dry-run] would uninstall ", x.as_str(), " from profile '", self.name.as_str(), "'");
                    ManageAction::Notice(m)
                } else {
                    let m = count_message("[dry-run] ", self.exts.len(), " extension(s) would be uninstalled from profile '", self.name.as_str(), "'.");
                    self.finish(Ok(m))
                }
            },
            (UninstallStage::ConfirmAll, ManageEvent::Answer(yes)) => {
                if yes {
                    self.go_from(0)
                } else {
                    self.finish(Ok(String::from_str("Cancelled.")))
                }
            },
            (UninstallStage::ConfirmOne, ManageEvent::Answer(yes)) => {
                let x = self.current();
                let n = self.exts.len();
                assert(n == self@.exts.len());
                if yes {
                    self.stage = UninstallStage::Uninstall;
                    ManageAction::RunCode(uninstall_extension_args(self.name.as_str(), x.as_str()))
                } else {
                    push_text(&mut self.skipped, x);
                    let j = self.next + 1;
                    self.go_from(j)
                }
            },
            (UninstallStage::Uninstall, ManageEvent::CodeRan(r)) => {
                let x = self.current();
                let n = self.exts.len();
                assert(n == self@.exts.len());
                match r {
                    Some(_) => push_text(&mut self.removed, x),
                    None => push_text(&mut self.failed, x),
                }
                let j = self.next + 1;
                self.go_from(j)
            },
            _ => {
                assert(false);
                ManageAction::ReadStorage
            },
        }
    }

    /// The stage the session is in.
    pub fn stage(&self) -> (res: UninstallStage)
        ensures
            res == self@.stage,
    {
        self.stage
    }
}

/// A removal runs `code` only to list the profile's extensions, or to
/// uninstall the extension asked for; it uninstalls only outside a dry run,
/// an extension that the listing gave, and, without `force`, right after
/// the user said yes.
pub proof fn lemma_remove_runs_only_what_was_asked(s: RemoveView, e: ManageEventView)
    requires
        remove_wf(s),
        remove_awaits(s.stage, e),
    ensures
        remove_wf(remove_next(s, e).0),
        remove_next(s, e).0.stage == RemoveStage::Uninstall ==> remove_next(s, e).1
            == ManageActionView::RunCode(uninstall_args(s.name, s.ext)) && !s.dry_run
            && remove_next(s, e).0.listed.contains(s.ext) && (s.force || (s.stage
            == RemoveStage::Confirm && e == ManageEventView::Answer(true))),
        remove_next(s, e).1 is RunCode && remove_next(s, e).0.stage != RemoveStage::Uninstall
            ==> remove_next(s, e).1 == ManageActionView::RunCode(list_args(s.name)),
        s.dry_run ==> !(remove_next(s, e).1 is Confirm),
{
}

/// An uninstallation of all extensions uninstalls only outside a dry run,
/// only extensions that the listing gave, each after the one question (with
/// `force`) or right after the user said yes to it; and once it has gone
/// through the extensions it accounts for each of them exactly once, failing
/// when a removal failed.
pub proof fn lemma_uninstall_accounts(s: UninstallView, e: ManageEventView)
    requires
        uninstall_wf(s),
        uninstall_awaits(s.stage, e),
    ensures
        uninstall_wf(uninstall_next(s, e).0),
        ({
            let (t, a) = uninstall_next(s, e);
            &&& t.stage == UninstallStage::Uninstall ==> !s.dry_run && t.next < t.exts.len()
                && a == ManageActionView::RunCode(uninstall_args(s.name, t.exts[t.next as int]))
                && (s.force || (s.stage == UninstallStage::ConfirmOne && e
                == ManageEventView::Answer(true)))
            &&& s.dry_run ==> !(a is Confirm) && t.stage != UninstallStage::Uninstall
            &&& (s.stage == UninstallStage::ConfirmOne || s.stage == UninstallStage::Uninstall)
                && a is Finish ==> t.removed.len() + t.failed.len() + t.skipped.len()
                == t.exts.len() && (a matches ManageActionView::Finish(r) && (r is Ok
                <==> t.failed.len() == 0))
        }),
{
}

/// Without `force`, the removal does what the user answers: yes runs
/// `code` to uninstall the extension from the profile, and only no ends it
/// with `Cancelled.`, having uninstalled nothing.
pub proof fn lemma_remove_follows_the_answer(s: RemoveView)
    requires
        s.stage == RemoveStage::Confirm,
    ensures
        remove_next(s, ManageEventView::Answer(true)).1 == ManageActionView::RunCode(
            code_args(s.name, seq!["--uninstall-extension"@, s.ext]),
        ),
        remove_next(s, ManageEventView::Answer(true)).0.stage == RemoveStage::Uninstall,
        remove_next(s, ManageEventView::Answer(false)).1 == ManageActionView::Finish(
            Ok("Cancelled."@),
        ),
{
}

/// A yes to the one question of a forced uninstallation starts uninstalling
/// the first extension listed; a no ends it with `Cancelled.` and
/// uninstalls nothing.
pub proof fn lemma_uninstall_follows_the_bulk_answer(s: UninstallView)
    requires
        uninstall_wf(s),
        s.stage == UninstallStage::ConfirmAll,
    ensures
        uninstall_next(s, ManageEventView::Answer(true)).1 == ManageActionView::RunCode(
            code_args(s.name, seq!["--uninstall-extension"@, s.exts[0]]),
        ),
        uninstall_next(s, ManageEventView::Answer(false)).1 == ManageActionView::Finish(
            Ok("Cancelled."@),
        ),
        uninstall_next(s, ManageEventView::Answer(false)).0.stage == UninstallStage::Finished,
{
}

/// An uninstallation runs `code` to uninstall an extension only after a
/// yes: the step that moves to uninstalling answers a question with yes, or
/// follows an uninstallation already confirmed (the one question of a
/// forced run covers every extension).
pub proof fn lemma_uninstall_only_after_yes(s: UninstallView, e: ManageEventView)
    requires
        uninstall_wf(s),
        uninstall_awaits(s.stage, e),
        uninstall_next(s, e).0.stage == UninstallStage::Uninstall,
    ensures
        e == ManageEventView::Answer(true) && (s.stage == UninstallStage::ConfirmAll || s.stage
            == UninstallStage::ConfirmOne) || (s.stage == UninstallStage::Uninstall && s.force),
{
}

/// In the profile listing only the first row, the built-in default
/// profile, is marked as the default profile; every row after it is a
/// profile that `storage.json` registers under that name.
pub proof fn lemma_only_first_row_is_default(storage: Seq<char>)
    ensures
        listed_profiles(storage).len() >= 1,
        listed_profiles(storage)[0].is_default,
        listed_profiles(storage)[0].name == "Default"@,
        forall|k: int|
            1 <= k < listed_profiles(storage).len() ==> !(#[trigger] listed_profiles(storage)[k]).is_default,
        forall|k: int|
            1 <= k < listed_profiles(storage).len() ==> exists|i: int|
                0 <= i < profiles_of(storage)->0.len() && (#[trigger] profiles_of(storage)->0[i]).get(
                    "name"@,
                ) == Some(JsonView::Str((#[trigger] listed_profiles(storage)[k]).name)),
{
    match profiles_of(storage) {
        Some(a) => {
            lemma_rows_not_default(a);
            assert(listed_profiles(storage) == seq![default_row()] + rows_of(a));
            assert forall|k: int| 1 <= k < listed_profiles(storage).len() implies !(
            #[trigger] listed_profiles(storage)[k]).is_default by {
                assert(listed_profiles(storage)[k] == rows_of(a)[k - 1]);
            }
            assert forall|k: int| 1 <= k < listed_profiles(storage).len() implies exists|i: int|
                0 <= i < profiles_of(storage)->0.len() && (#[trigger] profiles_of(storage)->0[i]).get(
                    "name"@,
                ) == Some(JsonView::Str((#[trigger] listed_profiles(storage)[k]).name)) by {
                assert(listed_profiles(storage)[k] == rows_of(a)[k - 1]);
            }
        },
        None => {
            assert(listed_profiles(storage) =~= seq![default_row()]);
        },
    }
}

proof fn lemma_rows_not_default(a: Seq<JsonView>)
    ensures
        forall|k: int| 0 <= k < rows_of(a).len() ==> !(#[trigger] rows_of(a)[k]).is_default,
        forall|k: int|
            0 <= k < rows_of(a).len() ==> exists|i: int|
                0 <= i < a.len() && (#[trigger] a[i]).get("name"@) == Some(
                    JsonView::Str((#[trigger] rows_of(a)[k]).name),
                ),
    decreases a.len(),
{
    if a.len() > 0 {
        let b = a.drop_last();
        lemma_rows_not_default(b);
        assert forall|k: int| 0 <= k < rows_of(a).len() implies exists|i: int|
            0 <= i < a.len() && (#[trigger] a[i]).get("name"@) == Some(
                JsonView::Str((#[trigger] rows_of(a)[k]).name),
            ) by {
            if k < rows_of(b).len() {
                assert(rows_of(a)[k] == rows_of(b)[k]);
                let i = choose|i: int|
                    0 <= i < b.len() && (#[trigger] b[i]).get("name"@) == Some(
                        JsonView::Str(rows_of(b)[k].name),
                    );
                assert(a[i] == b[i]);
            } else {
                assert(a[a.len() - 1] == a.last());
            }
        }
    }
}

} // verus!
