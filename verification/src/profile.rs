//! Decoding of `.code-profile` exports.

use vstd::prelude::*;
use crate::escape::{escape_newlines, escape_newlines_in_strings};
use crate::folder::{folder_name_of, lemma_folder_name_of_named, make_folder_name};
use crate::json::{
    Json, JsonView, fields_view, items_view, lookup, obj_insert, str_or_empty, spec_json_parse,
    object_get, object_insert, parse_json, lemma_array_view, lemma_lookup_after_insert,
    lemma_object_view,
};
use crate::pattern::{any_field, string_field, extract_any_field, extract_string_field};
use crate::text::{trim, trim_str, is_white_space, lemma_trim_idempotent, lemma_trim_no_edge_white_space};

verus! {

/// An I/O failure reported by the caller.
#[verifier::external_type_specification]
#[verifier::external_body]
pub struct ExIoError(std::io::Error);

/// Why an import or a decoding failed.
#[derive(Debug)]
pub enum ImportError {
    Io(std::io::Error),
    Json(serde_json::Error),
    Invalid(String),
}

/// The model of an [`ImportError`].
pub enum ImportErrorView {
    Io(std::io::Error),
    Json(serde_json::Error),
    Invalid(Seq<char>),
}

impl View for ImportError {
    type V = ImportErrorView;

    open spec fn view(&self) -> ImportErrorView {
        match self {
            ImportError::Io(e) => ImportErrorView::Io(*e),
            ImportError::Json(e) => ImportErrorView::Json(*e),
            ImportError::Invalid(s) => ImportErrorView::Invalid(s@),
        }
    }
}

/// What `Display` of an I/O error shows.
///
/// Trusted: formats `e` with `std::fmt::Display`; nothing is claimed of the
/// text, which the operating system supplies.
#[verifier::external_body]
fn io_error_text(e: &std::io::Error) -> String {
    format!("{}", e)
}

/// What `Display` of a `serde_json` error shows.
///
/// Trusted: formats `e` with `std::fmt::Display`; nothing is claimed of the
/// text.
#[verifier::external_body]
fn json_error_text(e: &serde_json::Error) -> String {
    format!("{}", e)
}

impl ImportError {
    /// The message of the error, as it is shown to the user.
    pub fn message(&self) -> (res: String)
        ensures
            self matches ImportError::Invalid(s) ==> res@ == "Invalid profile: "@ + s@,
            self is Io ==> "I/O error: "@.is_prefix_of(res@),
            self is Json ==> "JSON error: "@.is_prefix_of(res@),
    {
        match self {
            ImportError::Io(e) => {
                let mut m = String::from_str("I/O error: ");
                let t = io_error_text(e);
                m.append(t.as_str());
                m
            },
            ImportError::Json(e) => {
                let mut m = String::from_str("JSON error: ");
                let t = json_error_text(e);
                m.append(t.as_str());
                m
            },
            ImportError::Invalid(s) => {
                let mut m = String::from_str("Invalid profile: ");
                m.append(s.as_str());
                m
            },
        }
    }
}

impl From<std::io::Error> for ImportError {
    fn from(e: std::io::Error) -> (res: Self) {
        ImportError::Io(e)
    }
}

impl vstd::std_specs::convert::FromSpecImpl<std::io::Error> for ImportError {
    open spec fn obeys_from_spec() -> bool {
        true
    }

    open spec fn from_spec(e: std::io::Error) -> Self {
        ImportError::Io(e)
    }
}

impl From<serde_json::Error> for ImportError {
    fn from(e: serde_json::Error) -> (res: Self) {
        ImportError::Json(e)
    }
}

impl vstd::std_specs::convert::FromSpecImpl<serde_json::Error> for ImportError {
    open spec fn obeys_from_spec() -> bool {
        true
    }

    open spec fn from_spec(e: serde_json::Error) -> Self {
        ImportError::Json(e)
    }
}

/// A fully decoded, normalised `.code-profile`.
#[derive(Debug)]
pub struct ParsedProfile {
    /// Canonical profile name (from `name`, falling back to `displayName`).
    pub name: String,
    /// Filesystem-safe version of the name.
    pub folder_name: String,
    /// VS Code icon identifier, empty when there is none.
    pub icon: String,
    /// Raw JSONC text for `settings.json` (may be empty).
    pub settings_content: String,
    /// Raw JSONC text for `keybindings.json` (may be empty).
    pub keybindings_content: String,
    /// Extension identifiers to install, in order.
    pub extensions: Vec<String>,
}

/// The model of a [`ParsedProfile`].
pub struct ParsedProfileView {
    pub name: Seq<char>,
    pub folder_name: Seq<char>,
    pub icon: Seq<char>,
    pub settings_content: Seq<char>,
    pub keybindings_content: Seq<char>,
    pub extensions: Seq<Seq<char>>,
}

impl View for ParsedProfile {
    type V = ParsedProfileView;

    open spec fn view(&self) -> ParsedProfileView {
        ParsedProfileView {
            name: self.name@,
            folder_name: self.folder_name@,
            icon: self.icon@,
            settings_content: self.settings_content@,
            keybindings_content: self.keybindings_content@,
            extensions: self.extensions.deep_view(),
        }
    }
}

/// The members of an object, as models.
pub type FieldsView = Seq<(Seq<char>, JsonView)>;

/// `fields` with the member `key` decoded when it is a string holding JSON.
pub open spec fn decode_field(fields: FieldsView, key: Seq<char>) -> FieldsView {
    match lookup(fields, key) {
        Some(JsonView::Str(s)) => match spec_json_parse(s) {
            Some(v) => obj_insert(fields, key, v),
            None => fields,
        },
        _ => fields,
    }
}

/// `fields` with `settings`, `keybindings`, `extensions` and `globalState`
/// decoded, in that order, wherever they are strings that hold JSON.
pub open spec fn decode_nested(fields: FieldsView) -> FieldsView {
    decode_field(
        decode_field(
            decode_field(decode_field(fields, "settings"@), "keybindings"@),
            "extensions"@,
        ),
        "globalState"@,
    )
}

fn decode_field_in(fields: &mut Vec<(String, Json)>, key: &str)
    ensures
        fields_view(*final(fields)) == decode_field(fields_view(*old(fields)), key@),
{
    let parsed = match object_get(fields, key) {
        Some(Json::Str(s)) => match parse_json(s.as_str()) {
            Ok(v) => Some(v),
            Err(_) => None,
        },
        _ => None,
    };
    match parsed {
        Some(v) => object_insert(fields, String::from_str(key), v),
        None => {},
    }
}

/// Decode the members that exports store as JSON inside a string.
pub fn decode_nested_strings(fields: Vec<(String, Json)>) -> (res: Vec<(String, Json)>)
    ensures
        fields_view(res) == decode_nested(fields_view(fields)),
{
    let mut fields = fields;
    decode_field_in(&mut fields, "settings");
    decode_field_in(&mut fields, "keybindings");
    decode_field_in(&mut fields, "extensions");
    decode_field_in(&mut fields, "globalState");
    fields
}

/// The JSONC text held in the member `outer_key`: its member `inner_key` when
/// it is (or holds, as text) an object, the text itself when it holds no
/// object, and empty otherwise.
pub open spec fn jsonc_field(outer: FieldsView, outer_key: Seq<char>, inner_key: Seq<char>) -> Seq<char> {
    match lookup(outer, outer_key) {
        None => Seq::empty(),
        Some(JsonView::Object(o)) => str_or_empty(lookup(o, inner_key)),
        Some(JsonView::Str(s)) => match spec_json_parse(s) {
            Some(JsonView::Object(o)) => str_or_empty(lookup(o, inner_key)),
            _ => s,
        },
        Some(_) => Seq::empty(),
    }
}

fn string_member(fields: &Vec<(String, Json)>, key: &str) -> (res: String)
    ensures
        res@ == str_or_empty(lookup(fields_view(*fields), key@)),
{
    match object_get(fields, key) {
        Some(Json::Str(s)) => s.clone(),
        _ => String::new(),
    }
}

/// Extract the JSONC text of a double-encoded member such as `settings`.
pub fn decode_jsonc_field(outer: &Vec<(String, Json)>, outer_key: &str, inner_key: &str) -> (res: String)
    ensures
        res@ == jsonc_field(fields_view(*outer), outer_key@, inner_key@),
{
    match object_get(outer, outer_key) {
        None => String::new(),
        Some(Json::Object(o)) => {
            proof {
                lemma_object_view(*o);
            }
            string_member(o, inner_key)
        },
        Some(Json::Str(s)) => match parse_json(s.as_str()) {
            Ok(Json::Object(o)) => {
                proof {
                    lemma_object_view(o);
                }
                string_member(&o, inner_key)
            },
            _ => s.clone(),
        },
        Some(_) => String::new(),
    }
}

/// The double encoding of a member such as `settings` is undone: when the
/// member holds an object whose member `inner_key` is the text `j`, or holds
/// a text that reads as such an object, the JSONC text extracted is `j`
/// itself, verbatim.
pub proof fn lemma_jsonc_field_undoes_encoding(
    outer: FieldsView,
    outer_key: Seq<char>,
    inner_key: Seq<char>,
    j: Seq<char>,
)
    ensures
        (lookup(outer, outer_key) matches Some(JsonView::Object(o)) && lookup(o, inner_key)
            == Some(JsonView::Str(j))) ==> jsonc_field(outer, outer_key, inner_key) == j,
        (lookup(outer, outer_key) matches Some(JsonView::Str(t)) && spec_json_parse(t) matches Some(
            JsonView::Object(o),
        ) && lookup(o, inner_key) == Some(JsonView::Str(j))) ==> jsonc_field(
            outer,
            outer_key,
            inner_key,
        ) == j,
{
}

/// The trimmed text of a string value, when that text is not empty.
pub open spec fn nonempty_trimmed(v: Option<JsonView>) -> Option<Seq<char>> {
    match v {
        Some(JsonView::Str(id)) => if trim(id).len() > 0 {
            Some(trim(id))
        } else {
            None
        },
        _ => None,
    }
}

/// The extension identifier an entry of `extensions` stands for: a string is
/// the (trimmed) identifier itself; an object gives `identifier.id`, else
/// `id`, when that is a string that is not blank.
pub open spec fn ext_id_of(v: JsonView) -> Option<Seq<char>> {
    match v {
        JsonView::Str(s) => Some(trim(s)),
        JsonView::Object(f) => {
            let by_identifier = match lookup(f, "identifier"@) {
                Some(JsonView::Object(g)) => nonempty_trimmed(lookup(g, "id"@)),
                _ => None,
            };
            if by_identifier is Some {
                by_identifier
            } else {
                nonempty_trimmed(lookup(f, "id"@))
            }
        },
        _ => None,
    }
}

fn nonempty_trimmed_member(fields: &Vec<(String, Json)>, key: &str) -> (res: Option<String>)
    ensures
        match res {
            Some(s) => nonempty_trimmed(lookup(fields_view(*fields), key@)) == Some(s@),
            None => nonempty_trimmed(lookup(fields_view(*fields), key@)) is None,
        },
{
    match object_get(fields, key) {
        Some(Json::Str(id)) => {
            let t = trim_str(id.as_str());
            if !t.as_str().is_empty() {
                Some(t)
            } else {
                None
            }
        },
        _ => None,
    }
}

/// The extension identifier an entry of `extensions` stands for.
pub fn extract_ext_id(v: &Json) -> (res: Option<String>)
    ensures
        match res {
            Some(s) => ext_id_of(v@) == Some(s@),
            None => ext_id_of(v@) is None,
        },
{
    match v {
        Json::Str(s) => Some(trim_str(s.as_str())),
        Json::Object(map) => {
            proof {
                lemma_object_view(*map);
            }
            let by_identifier = match object_get(map, "identifier") {
                Some(Json::Object(ident)) => {
                    proof {
                        lemma_object_view(*ident);
                    }
                    nonempty_trimmed_member(ident, "id")
                },
                _ => None,
            };
            if by_identifier.is_some() {
                by_identifier
            } else {
                nonempty_trimmed_member(map, "id")
            }
        },
        _ => None,
    }
}

/// The identifiers of the entries of `items` that stand for one, in order.
pub open spec fn ext_ids(items: Seq<JsonView>) -> Seq<Seq<char>>
    decreases items.len(),
{
    if items.len() == 0 {
        Seq::empty()
    } else {
        let before = ext_ids(items.drop_last());
        match ext_id_of(items.last()) {
            Some(id) => before.push(id),
            None => before,
        }
    }
}

/// The entries of the `extensions` member: the array itself, or the array
/// that its text holds; no entries otherwise.
pub open spec fn extension_items(outer: FieldsView) -> Seq<JsonView> {
    match lookup(outer, "extensions"@) {
        Some(JsonView::Array(a)) => a,
        Some(JsonView::Str(s)) => match spec_json_parse(s) {
            Some(JsonView::Array(a)) => a,
            _ => Seq::empty(),
        },
        _ => Seq::empty(),
    }
}

/// The extension identifiers a profile lists.
pub open spec fn extension_ids(outer: FieldsView) -> Seq<Seq<char>> {
    ext_ids(extension_items(outer))
}

fn collect_ids(items: &Vec<Json>) -> (res: Vec<String>)
    ensures
        res.deep_view() == ext_ids(items_view(*items)),
{
    let ghost iv = items_view(*items);
    let mut out: Vec<String> = Vec::new();
    let mut i: usize = 0;
    while i < items.len()
        invariant
            i <= items.len(),
            iv == items_view(*items),
            out.deep_view() == ext_ids(iv.take(i as int)),
        decreases items.len() - i,
    {
        assert(iv.take(i + 1).drop_last() =~= iv.take(i as int));
        assert(iv.take(i + 1).last() == items@[i as int]@);
        match extract_ext_id(&items[i]) {
            Some(id) => {
                out.push(id);
                assert(out.deep_view() =~= ext_ids(iv.take(i + 1)));
            },
            None => {},
        }
        i = i + 1;
    }
    assert(iv.take(items.len() as int) =~= iv);
    out
}

/// Extension identifiers of a decoded profile (the `extensions` member holds
/// an array, or an array encoded as text).
pub fn extract_extension_ids(outer: &Vec<(String, Json)>) -> (res: Vec<String>)
    ensures
        res.deep_view() == extension_ids(fields_view(*outer)),
{
    match object_get(outer, "extensions") {
        Some(Json::Array(a)) => {
            proof {
                lemma_array_view(*a);
            }
            collect_ids(a)
        },
        Some(Json::Str(s)) => match parse_json(s.as_str()) {
            Ok(Json::Array(a)) => {
                proof {
                    lemma_array_view(a);
                }
                collect_ids(&a)
            },
            _ => Vec::new(),
        },
        _ => Vec::new(),
    }
}


/// The raw text of the profile's name when the text is not JSON: the first
/// string member `name`, else the first string member `displayName`.
pub open spec fn tolerant_name(raw: Seq<char>) -> Option<Seq<char>> {
    match string_field(raw, "name"@) {
        Some(n) => Some(n),
        None => string_field(raw, "displayName"@),
    }
}

/// `fields` with the member `key` recovered from `raw`, when it can be.
pub open spec fn add_recovered(fields: FieldsView, raw: Seq<char>, key: Seq<char>) -> FieldsView {
    match any_field(raw, key) {
        Some(v) => obj_insert(fields, key, v),
        None => fields,
    }
}

/// The members recovered from a text that is not JSON, given its name, in
/// key order (as `serde_json`'s map keeps them).
pub open spec fn tolerant_fields(raw: Seq<char>, name: Seq<char>) -> FieldsView {
    let f1 = add_recovered(Seq::empty(), raw, "extensions"@);
    let f2 = add_recovered(f1, raw, "globalState"@);
    let f3 = add_recovered(f2, raw, "icon"@);
    let f4 = add_recovered(f3, raw, "keybindings"@);
    let f5 = obj_insert(f4, "name"@, JsonView::Str(name));
    add_recovered(f5, raw, "settings"@)
}

/// The top-level members of a profile text: the object it holds as JSON; else
/// the object it holds once raw line breaks in strings are escaped; else the
/// members recovered one by one, of which the name is mandatory. In all three
/// cases the double-encoded members are then decoded.
pub open spec fn outer_of(raw: Seq<char>) -> Result<FieldsView, ImportErrorView> {
    match spec_json_parse(raw) {
        Some(JsonView::Object(f)) => Ok(decode_nested(f)),
        _ => match spec_json_parse(escape_newlines(raw)) {
            Some(JsonView::Object(f)) => Ok(decode_nested(f)),
            _ => match tolerant_name(raw) {
                None => Err(
                    ImportErrorView::Invalid("Profile has no 'name' or 'displayName' field"@),
                ),
                Some(name) => Ok(decode_nested(tolerant_fields(raw, name))),
            },
        },
    }
}

fn parsed_object(text: &str) -> (res: Option<Vec<(String, Json)>>)
    ensures
        match res {
            Some(f) => spec_json_parse(text@) == Some(JsonView::Object(fields_view(f))),
            None => !(spec_json_parse(text@) matches Some(JsonView::Object(_))),
        },
{
    match parse_json(text) {
        Ok(Json::Object(f)) => {
            proof {
                lemma_object_view(f);
            }
            Some(f)
        },
        Ok(_) => None,
        Err(_) => None,
    }
}

fn recover_field(fields: &mut Vec<(String, Json)>, raw: &str, key: &str)
    ensures
        fields_view(*final(fields)) == add_recovered(fields_view(*old(fields)), raw@, key@),
{
    match extract_any_field(raw, key) {
        Some(v) => object_insert(fields, String::from_str(key), v),
        None => {},
    }
}

fn parse_outer_tolerant(raw: &str) -> (res: Result<Vec<(String, Json)>, ImportError>)
    ensures
        match res {
            Ok(f) => outer_of(raw@) == Ok::<FieldsView, ImportErrorView>(fields_view(f)),
            Err(e) => outer_of(raw@) == Err::<FieldsView, ImportErrorView>(e@),
        },
{
    if let Some(map) = parsed_object(raw) {
        return Ok(decode_nested_strings(map));
    }
    let escaped = escape_newlines_in_strings(raw);
    if let Some(map) = parsed_object(escaped.as_str()) {
        return Ok(decode_nested_strings(map));
    }
    let name = match extract_string_field(raw, "name") {
        Some(n) => n,
        None => match extract_string_field(raw, "displayName") {
            Some(d) => d,
            None => {
                return Err(
                    ImportError::Invalid(
                        String::from_str("Profile has no 'name' or 'displayName' field"),
                    ),
                );
            },
        },
    };
    let mut top: Vec<(String, Json)> = Vec::new();
    proof {
        assert(fields_view(top) =~= Seq::<(Seq<char>, JsonView)>::empty());
    }
    recover_field(&mut top, raw, "extensions");
    recover_field(&mut top, raw, "globalState");
    recover_field(&mut top, raw, "icon");
    recover_field(&mut top, raw, "keybindings");
    object_insert(&mut top, String::from_str("name"), Json::Str(name));
    recover_field(&mut top, raw, "settings");
    Ok(decode_nested_strings(top))
}

/// Decode the text of a `.code-profile` file into its top-level members,
/// tolerating raw line breaks inside strings and, failing that, recovering
/// the known members one by one.
pub fn read_profile_file(raw: &str) -> (res: Result<Vec<(String, Json)>, ImportError>)
    ensures
        match res {
            Ok(f) => outer_of(raw@) == Ok::<FieldsView, ImportErrorView>(fields_view(f)),
            Err(e) => outer_of(raw@) == Err::<FieldsView, ImportErrorView>(e@),
        },
{
    parse_outer_tolerant(raw)
}

/// The canonical name: the trimmed `name` when it is a string that is not
/// blank, else the trimmed `displayName` under the same condition.
pub open spec fn choose_name(f: FieldsView) -> Option<Seq<char>> {
    match nonempty_trimmed(lookup(f, "name"@)) {
        Some(n) => Some(n),
        None => nonempty_trimmed(lookup(f, "displayName"@)),
    }
}

/// The profile described by the decoded top-level members `f`.
pub open spec fn profile_from(f: FieldsView) -> Result<ParsedProfileView, ImportErrorView> {
    match choose_name(f) {
        None => Err(ImportErrorView::Invalid("Profile has no 'name' field"@)),
        Some(name) => Ok(
            ParsedProfileView {
                name: name,
                folder_name: folder_name_of(name),
                icon: str_or_empty(lookup(f, "icon"@)),
                settings_content: jsonc_field(f, "settings"@, "settings"@),
                keybindings_content: jsonc_field(f, "keybindings"@, "keybindings"@),
                extensions: extension_ids(f),
            },
        ),
    }
}

/// What a profile text decodes to.
pub open spec fn profile_of(raw: Seq<char>) -> Result<ParsedProfileView, ImportErrorView> {
    match outer_of(raw) {
        Err(e) => Err(e),
        Ok(f) => profile_from(f),
    }
}

/// The profile described by the decoded top-level members `outer` (see
/// [`read_profile_file`]).
pub fn profile_from_fields(outer: &Vec<(String, Json)>) -> (res: Result<ParsedProfile, ImportError>)
    ensures
        match res {
            Ok(p) => profile_from(fields_view(*outer)) == Ok::<ParsedProfileView, ImportErrorView>(p@),
            Err(e) => profile_from(fields_view(*outer)) == Err::<ParsedProfileView, ImportErrorView>(e@),
        },
{
    let name = match nonempty_trimmed_member(outer, "name") {
        Some(n) => n,
        None => match nonempty_trimmed_member(outer, "displayName") {
            Some(d) => d,
            None => return Err(ImportError::Invalid(String::from_str("Profile has no 'name' field"))),
        },
    };
    let folder_name = make_folder_name(name.as_str());
    let icon = string_member(outer, "icon");
    let settings_content = decode_jsonc_field(outer, "settings", "settings");
    let keybindings_content = decode_jsonc_field(outer, "keybindings", "keybindings");
    let extensions = extract_extension_ids(outer);
    Ok(
        ParsedProfile {
            name,
            folder_name,
            icon,
            settings_content,
            keybindings_content,
            extensions,
        },
    )
}

/// Decode the text of a `.code-profile` file into a profile ready for import.
pub fn parse_profile(raw: &str) -> (res: Result<ParsedProfile, ImportError>)
    ensures
        match res {
            Ok(p) => profile_of(raw@) == Ok::<ParsedProfileView, ImportErrorView>(p@),
            Err(e) => profile_of(raw@) == Err::<ParsedProfileView, ImportErrorView>(e@),
        },
{
    let outer = match parse_outer_tolerant(raw) {
        Ok(f) => f,
        Err(e) => return Err(e),
    };
    profile_from_fields(&outer)
}

/// Every extension identifier a profile yields is free of surrounding
/// whitespace.
pub proof fn lemma_extension_ids_trimmed(items: Seq<JsonView>)
    ensures
        forall|k: int| 0 <= k < ext_ids(items).len() ==> trim(#[trigger] ext_ids(items)[k]) == ext_ids(items)[k],
    decreases items.len(),
{
    if items.len() > 0 {
        lemma_extension_ids_trimmed(items.drop_last());
        let before = ext_ids(items.drop_last());
        match ext_id_of(items.last()) {
            Some(id) => {
                lemma_ext_id_trimmed(items.last());
                assert forall|k: int| 0 <= k < ext_ids(items).len() implies trim(
                    #[trigger] ext_ids(items)[k],
                ) == ext_ids(items)[k] by {
                    if k < before.len() {
                        assert(ext_ids(items)[k] == before[k]);
                    }
                }
            },
            None => {},
        }
    }
}

proof fn lemma_ext_id_trimmed(v: JsonView)
    ensures
        ext_id_of(v) matches Some(id) ==> trim(id) == id,
{
    match v {
        JsonView::Str(s) => lemma_trim_idempotent(s),
        JsonView::Object(f) => {
            if let Some(JsonView::Object(g)) = lookup(f, "identifier"@) {
                if let Some(JsonView::Str(id)) = lookup(g, "id"@) {
                    lemma_trim_idempotent(id);
                }
            }
            if let Some(JsonView::Str(id)) = lookup(f, "id"@) {
                lemma_trim_idempotent(id);
            }
        },
        _ => {},
    }
}

/// A decoded profile has a name that is not blank and has no surrounding
/// whitespace, and its folder name is the folder name of that name, which
/// is not empty.
pub proof fn lemma_profile_name(raw: Seq<char>)
    ensures
        profile_of(raw) matches Ok(p) ==> p.name.len() > 0 && !is_white_space(p.name[0])
            && !is_white_space(p.name.last()) && p.folder_name == folder_name_of(p.name)
            && p.folder_name.len() > 0,
{
    if let Ok(f) = outer_of(raw) {
        if let Some(JsonView::Str(n)) = lookup(f, "name"@) {
            lemma_trim_no_edge_white_space(n);
            lemma_trim_idempotent(n);
            if trim(n).len() > 0 {
                lemma_folder_name_of_named(trim(n));
            }
        }
        if let Some(JsonView::Str(d)) = lookup(f, "displayName"@) {
            lemma_trim_no_edge_white_space(d);
            lemma_trim_idempotent(d);
            if trim(d).len() > 0 {
                lemma_folder_name_of_named(trim(d));
            }
        }
    }
}

/// Whether `key` names a member that exports store as JSON inside a string.
pub open spec fn is_encoded_member(key: Seq<char>) -> bool {
    key == "settings"@ || key == "keybindings"@ || key == "extensions"@ || key == "globalState"@
}

proof fn lemma_decode_field_lookup(f: FieldsView, k: Seq<char>, key: Seq<char>)
    ensures
        key != k ==> lookup(decode_field(f, k), key) == lookup(f, key),
        key == k && (lookup(f, k) matches Some(JsonView::Str(t)) && spec_json_parse(t) is Some)
            ==> lookup(decode_field(f, k), key) == spec_json_parse(lookup(f, k)->0->Str_0),
        key == k && !(lookup(f, k) matches Some(JsonView::Str(t)) && spec_json_parse(t) is Some)
            ==> lookup(decode_field(f, k), key) == lookup(f, key),
{
    if let Some(JsonView::Str(t)) = lookup(f, k) {
        if let Some(v) = spec_json_parse(t) {
            lemma_lookup_after_insert(f, k, v, key);
        }
    }
}

/// Decoding the members of a profile turns each of `settings`,
/// `keybindings`, `extensions` and `globalState` that is a string holding
/// JSON into the value that string holds, and leaves every other member,
/// and those that are not such strings, as they were.
pub proof fn lemma_decode_nested_members(f: FieldsView, key: Seq<char>)
    ensures
        is_encoded_member(key) ==> (lookup(f, key) matches Some(JsonView::Str(t)) ==> (
        spec_json_parse(t) matches Some(v) ==> lookup(decode_nested(f), key) == Some(v))),
        !(is_encoded_member(key) && (lookup(f, key) matches Some(JsonView::Str(t))
            && spec_json_parse(t) is Some)) ==> lookup(decode_nested(f), key) == lookup(f, key),
{
    reveal_strlit("settings");
    reveal_strlit("keybindings");
    reveal_strlit("extensions");
    reveal_strlit("globalState");
    let ks = seq!["settings"@, "keybindings"@, "extensions"@, "globalState"@];
    assert forall|i: int, j: int| 0 <= i < j < 4 implies #[trigger] ks[i] != #[trigger] ks[j] by {
        assert(ks[i][0] != ks[j][0]);
    }
    assert(ks[0] != ks[1] && ks[0] != ks[2] && ks[0] != ks[3] && ks[1] != ks[2] && ks[1] != ks[3]
        && ks[2] != ks[3]);
    let f1 = decode_field(f, "settings"@);
    let f2 = decode_field(f1, "keybindings"@);
    let f3 = decode_field(f2, "extensions"@);
    lemma_decode_field_lookup(f, "settings"@, key);
    lemma_decode_field_lookup(f1, "keybindings"@, key);
    lemma_decode_field_lookup(f2, "extensions"@, key);
    lemma_decode_field_lookup(f3, "globalState"@, key);
}

/// A profile text that is a JSON object is read into its members with
/// every encoded member (`settings`, `keybindings`, `extensions`,
/// `globalState`) that is a string holding JSON decoded into that JSON, and
/// every other member as it was.
pub proof fn lemma_read_profile_decodes(raw: Seq<char>, key: Seq<char>)
    requires
        spec_json_parse(raw) is Some,
        spec_json_parse(raw)->0 is Object,
    ensures
        outer_of(raw) is Ok,
        is_encoded_member(key) ==> (lookup(spec_json_parse(raw)->0->Object_0, key) matches Some(
            JsonView::Str(t),
        ) ==> (spec_json_parse(t) matches Some(v) ==> lookup(outer_of(raw)->Ok_0, key) == Some(
            v,
        ))),
        !(is_encoded_member(key) && (lookup(spec_json_parse(raw)->0->Object_0, key) matches Some(
            JsonView::Str(t),
        ) && spec_json_parse(t) is Some)) ==> lookup(outer_of(raw)->Ok_0, key) == lookup(
            spec_json_parse(raw)->0->Object_0,
            key,
        ),
{
    lemma_decode_nested_members(spec_json_parse(raw)->0->Object_0, key);
}

} // verus!
