//! Reading and patching VS Code's `storage.json`.

use vstd::prelude::*;
use crate::json::{
    Json, JsonView, fields_view, items_view, key_index, obj_insert, spec_json_parse,
    spec_json_pretty, spec_json_read, find_key, json_as_str, json_get, json_to_pretty_string, object_insert,
    parse_json, lemma_array_view, lemma_object_view, lemma_key_index_from,
    lemma_key_index_same_keys, lemma_lookup_after_insert,
};
use crate::profile::{ImportError, ImportErrorView};
use crate::text::same_text;

verus! {

/// What `Path::parent` gives for the path `p` (as text), by the path rules of
/// the platform the library is built for.
pub uninterp spec fn spec_path_parent(p: Seq<char>) -> Option<Seq<char>>;

/// The parent directory of the path `p`, when it has one.
///
/// Trusted: calls `std::path::Path::parent`; the contract names its result,
/// which depends on `p` alone.
#[verifier::external_body]
pub fn path_parent(p: &str) -> (res: Option<String>)
    ensures
        match res {
            Some(q) => spec_path_parent(p@) == Some(q@),
            None => spec_path_parent(p@) is None,
        },
{
    std::path::Path::new(p).parent().map(|q| q.to_string_lossy().into_owned())
}

/// What `Path::join` gives for the paths `base` and `rel` (as text), by the
/// path rules of the platform the library is built for.
pub uninterp spec fn spec_path_join(base: Seq<char>, rel: Seq<char>) -> Seq<char>;

/// The path `rel` taken relative to `base`.
///
/// Trusted: calls `std::path::Path::join`; the contract names its result,
/// which depends on `base` and `rel` alone.
#[verifier::external_body]
pub fn path_join(base: &str, rel: &str) -> (res: String)
    ensures
        res@ == spec_path_join(base@, rel@),
{
    std::path::Path::new(base).join(rel).to_string_lossy().into_owned()
}

/// Whether a profile entry of `storage.json` carries the name `name`.
pub open spec fn entry_named(e: JsonView, name: Seq<char>) -> bool {
    e.get("name"@) == Some(JsonView::Str(name))
}

/// The entries of `userDataProfiles`, when `root` is an object holding that
/// array.
pub open spec fn profiles_in(root: JsonView) -> Option<Seq<JsonView>> {
    match root.get("userDataProfiles"@) {
        Some(JsonView::Array(a)) => Some(a),
        _ => None,
    }
}

/// The entries of `userDataProfiles`, when `storage` is JSON holding that array.
pub open spec fn profiles_of(storage: Seq<char>) -> Option<Seq<JsonView>> {
    match spec_json_parse(storage) {
        Some(v) => profiles_in(v),
        None => None,
    }
}

/// Whether the decoded `storage.json` `root` registers a profile named `name`.
pub open spec fn registered_in_root(name: Seq<char>, root: JsonView) -> bool {
    match profiles_in(root) {
        Some(a) => exists|k: int| 0 <= k < a.len() && #[trigger] entry_named(a[k], name),
        None => false,
    }
}

/// Whether the text `storage` of `storage.json` registers a profile named `name`.
pub open spec fn registered_in(name: Seq<char>, storage: Seq<char>) -> bool {
    match spec_json_parse(storage) {
        Some(v) => registered_in_root(name, v),
        None => false,
    }
}

/// Whether the text `t` of `storage.json`, when there is one, registers `name`.
pub open spec fn storage_registers(name: Seq<char>, t: Option<Seq<char>>) -> bool {
    match t {
        Some(x) => registered_in(name, x),
        None => false,
    }
}

/// Position of the first entry named `name`, searching from position `i`.
pub open spec fn first_named_from(a: Seq<JsonView>, name: Seq<char>, i: int) -> Option<int>
    decreases a.len() - i,
{
    if i < 0 || i >= a.len() {
        None
    } else if entry_named(a[i], name) {
        Some(i)
    } else {
        first_named_from(a, name, i + 1)
    }
}

/// Position of the first entry named `name`.
pub open spec fn first_named(a: Seq<JsonView>, name: Seq<char>) -> Option<int> {
    first_named_from(a, name, 0)
}

/// The `location` of the first profile named `name` in the decoded
/// `storage.json` `root`, when it is a string.
pub open spec fn location_in_root(name: Seq<char>, root: JsonView) -> Option<Seq<char>> {
    match profiles_in(root) {
        Some(a) => match first_named(a, name) {
            Some(k) => match a[k].get("location"@) {
                Some(JsonView::Str(l)) => Some(l),
                _ => None,
            },
            None => None,
        },
        None => None,
    }
}

/// The `location` of the first profile named `name`, when it is a string.
pub open spec fn profile_location(name: Seq<char>, storage: Seq<char>) -> Option<Seq<char>> {
    match spec_json_parse(storage) {
        Some(v) => location_in_root(name, v),
        None => None,
    }
}

/// The directory of the profile at `location`: `profiles/<location>` beside
/// the directory that holds `storage_json`'s directory.
pub open spec fn dir_for_location(storage_json: Seq<char>, location: Seq<char>) -> Option<Seq<char>> {
    match spec_path_parent(storage_json) {
        Some(global_storage) => match spec_path_parent(global_storage) {
            Some(user) => Some(spec_path_join(spec_path_join(user, "profiles"@), location)),
            None => None,
        },
        None => None,
    }
}

/// The directory of profile `name`: `<storage_json>/../../profiles/<location>`.
pub open spec fn profile_dir_of(name: Seq<char>, storage_json: Seq<char>, storage: Seq<char>) -> Option<Seq<char>> {
    match profile_location(name, storage) {
        Some(l) => dir_for_location(storage_json, l),
        None => None,
    }
}

proof fn lemma_first_named_from(a: Seq<JsonView>, name: Seq<char>, i: int)
    requires
        0 <= i,
    ensures
        first_named_from(a, name, i) matches Some(k) ==> i <= k < a.len() && entry_named(
            a[k],
            name,
        ) && forall|q: int| i <= q < k ==> !entry_named(#[trigger] a[q], name),
        first_named_from(a, name, i) is None ==> forall|q: int|
            i <= q < a.len() ==> !entry_named(#[trigger] a[q], name),
    decreases a.len() - i,
{
    if i < a.len() && !entry_named(a[i], name) {
        lemma_first_named_from(a, name, i + 1);
    }
}

fn is_named(e: &Json, name: &str) -> (res: bool)
    ensures
        res == entry_named(e@, name@),
{
    match json_get(e, "name") {
        Some(n) => match json_as_str(n) {
            Some(s) => same_text(s.as_str(), name),
            None => false,
        },
        None => false,
    }
}

fn find_named(items: &Vec<Json>, name: &str) -> (res: Option<usize>)
    ensures
        match res {
            Some(k) => first_named(items_view(*items), name@) == Some(k as int) && k < items.len(),
            None => first_named(items_view(*items), name@) is None,
        },
{
    let ghost iv = items_view(*items);
    let mut i: usize = 0;
    while i < items.len()
        invariant
            i <= items.len(),
            iv == items_view(*items),
            first_named_from(iv, name@, 0) == first_named_from(iv, name@, i as int),
        decreases items.len() - i,
    {
        if is_named(&items[i], name) {
            return Some(i);
        }
        i = i + 1;
    }
    None
}

pub(crate) fn entries_in<'a>(root: &'a Json) -> (res: Option<&'a Vec<Json>>)
    ensures
        match res {
            Some(a) => profiles_in(root@) == Some(items_view(*a)),
            None => profiles_in(root@) is None,
        },
{
    match json_get(root, "userDataProfiles") {
        Some(Json::Array(a)) => {
            proof {
                lemma_array_view(*a);
            }
            Some(a)
        },
        _ => None,
    }
}

/// Whether the decoded `storage.json` `root` registers a profile named
/// `name` (an entry of `userDataProfiles` whose `name` is that string).
pub fn profile_registered_in(name: &str, root: &Json) -> (res: bool)
    ensures
        res == registered_in_root(name@, root@),
{
    match entries_in(root) {
        Some(a) => {
            proof {
                lemma_first_named_from(items_view(*a), name@, 0);
            }
            match find_named(a, name) {
                Some(k) => {
                    let ghost s = profiles_in(root@)->0;
                    assert(s == items_view(*a));
                    assert(entry_named(s[k as int], name@));
                    true
                },
                None => false,
            }
        },
        None => false,
    }
}

/// Whether the text `storage` of `storage.json` registers a profile named
/// `name`. Text that is not JSON registers nothing.
pub fn profile_registered(name: &str, storage: &str) -> (res: bool)
    ensures
        res == registered_in(name@, storage@),
{
    match parse_json(storage) {
        Ok(root) => profile_registered_in(name, &root),
        Err(_) => false,
    }
}

/// The `location` of the first profile named `name` in the decoded
/// `storage.json` `root`.
pub fn profile_location_in(name: &str, root: &Json) -> (res: Option<String>)
    ensures
        match res {
            Some(l) => location_in_root(name@, root@) == Some(l@),
            None => location_in_root(name@, root@) is None,
        },
{
    let entries = match entries_in(root) {
        Some(a) => a,
        None => return None,
    };
    let k = match find_named(entries, name) {
        Some(k) => k,
        None => return None,
    };
    match json_get(&entries[k], "location") {
        Some(l) => match json_as_str(l) {
            Some(s) => Some(s.clone()),
            None => None,
        },
        None => None,
    }
}

/// The directory `profiles/<location>` beside the directory that holds the
/// directory of `storage_json`.
pub fn profile_dir_for(storage_json: &str, location: &str) -> (res: Option<String>)
    ensures
        match res {
            Some(d) => dir_for_location(storage_json@, location@) == Some(d@),
            None => dir_for_location(storage_json@, location@) is None,
        },
{
    let global_storage = match path_parent(storage_json) {
        Some(g) => g,
        None => return None,
    };
    let user = match path_parent(global_storage.as_str()) {
        Some(u) => u,
        None => return None,
    };
    let profiles = path_join(user.as_str(), "profiles");
    Some(path_join(profiles.as_str(), location))
}

/// The on-disk directory of profile `name`: `storage_json` is the path of
/// `storage.json` and `storage` its text. The directory is `profiles/<location>`
/// beside the `globalStorage` directory, where `location` is that of the
/// first profile with that name.
pub fn resolve_profile_dir(name: &str, storage_json: &str, storage: &str) -> (res: Option<String>)
    ensures
        match res {
            Some(d) => profile_dir_of(name@, storage_json@, storage@) == Some(d@),
            None => profile_dir_of(name@, storage_json@, storage@) is None,
        },
{
    let root = match parse_json(storage) {
        Ok(v) => v,
        Err(_) => return None,
    };
    match profile_location_in(name, &root) {
        Some(l) => profile_dir_for(storage_json, l.as_str()),
        None => None,
    }
}

/// A profile entry with its `icon` set to `icon`.
pub open spec fn with_icon(e: JsonView, icon: Seq<char>) -> JsonView {
    match e {
        JsonView::Object(g) => JsonView::Object(obj_insert(g, "icon"@, JsonView::Str(icon))),
        _ => e,
    }
}

/// `root` with the `icon` of the first profile named `name` set to `icon`;
/// unchanged when there is no such profile.
pub open spec fn patch_view(root: JsonView, name: Seq<char>, icon: Seq<char>) -> JsonView {
    match root {
        JsonView::Object(f) => match key_index(f, "userDataProfiles"@) {
            Some(p) => match f[p].1 {
                JsonView::Array(a) => match first_named(a, name) {
                    Some(k) => JsonView::Object(
                        f.update(p, (f[p].0, JsonView::Array(a.update(k, with_icon(a[k], icon))))),
                    ),
                    None => root,
                },
                _ => root,
            },
            None => root,
        },
        _ => root,
    }
}

/// The new text of `storage.json` after patching, or the error met in
/// reading `storage` or printing the result.
pub open spec fn patched_storage(name: Seq<char>, icon: Seq<char>, storage: Seq<char>) -> Result<Seq<char>, serde_json::Error> {
    match spec_json_read(storage) {
        Ok(v) => spec_json_pretty(patch_view(v, name, icon)),
        Err(e) => Err(e),
    }
}

fn set_icon(e: Json, icon: &str) -> (res: Json)
    ensures
        res@ == with_icon(e@, icon@),
{
    match e {
        Json::Object(g) => {
            proof {
                lemma_object_view(g);
            }
            let mut g = g;
            object_insert(&mut g, String::from_str("icon"), Json::Str(String::from_str(icon)));
            proof {
                lemma_object_view(g);
            }
            Json::Object(g)
        },
        other => other,
    }
}

/// `root` with the `icon` of the first profile named `name` set to `icon`.
pub fn patch_icon_in(root: Json, name: &str, icon: &str) -> (res: Json)
    ensures
        res@ == patch_view(root@, name@, icon@),
{
    match root {
        Json::Object(fields) => {
            proof {
                lemma_object_view(fields);
            }
            let ghost f = fields_view(fields);
            match find_key(&fields, "userDataProfiles") {
                Some(p) => {
                    let mut fields = fields;
                    let ghost old_fields = fields;
                    let (k, val) = fields.remove(p);
                    proof {
                        lemma_key_index_from(f, "userDataProfiles"@, 0);
                    }
                    match val {
                        Json::Array(items) => {
                            proof {
                                lemma_array_view(items);
                            }
                            let ghost a = items_view(items);
                            let mut items = items;
                            match find_named(&items, name) {
                                Some(q) => {
                                    let e = items.remove(q);
                                    let e2 = set_icon(e, icon);
                                    items.insert(q, e2);
                                    assert(items_view(items) =~= a.update(
                                        q as int,
                                        with_icon(a[q as int], icon@),
                                    ));
                                    proof {
                                        lemma_array_view(items);
                                    }
                                    fields.insert(p, (k, Json::Array(items)));
                                    assert(fields_view(fields) =~= f.update(
                                        p as int,
                                        (
                                            f[p as int].0,
                                            JsonView::Array(
                                                a.update(q as int, with_icon(a[q as int], icon@)),
                                            ),
                                        ),
                                    ));
                                    proof {
                                        lemma_object_view(fields);
                                    }
                                    Json::Object(fields)
                                },
                                None => {
                                    fields.insert(p, (k, Json::Array(items)));
                                    assert(fields_view(fields) =~= f);
                                    proof {
                                        lemma_object_view(fields);
                                    }
                                    Json::Object(fields)
                                },
                            }
                        },
                        other => {
                            fields.insert(p, (k, other));
                            assert(fields_view(fields) =~= f);
                            proof {
                                lemma_object_view(fields);
                            }
                            Json::Object(fields)
                        },
                    }
                },
                None => Json::Object(fields),
            }
        },
        other => other,
    }
}

/// The text of `storage.json` with the `icon` of the first profile named
/// `name` set to `icon`, pretty-printed. Fails with a JSON error when
/// `storage` is not JSON.
pub fn patch_icon(name: &str, icon: &str, storage: &str) -> (res: Result<String, ImportError>)
    ensures
        match res {
            Ok(t) => patched_storage(name@, icon@, storage@) == Ok::<Seq<char>, serde_json::Error>(t@),
            Err(e) => patched_storage(name@, icon@, storage@) matches Err(je) && e@ == ImportErrorView::Json(je),
        },
{
    let root = match parse_json(storage) {
        Ok(v) => v,
        Err(e) => return Err(ImportError::Json(e)),
    };
    let patched = patch_icon_in(root, name, icon);
    match json_to_pretty_string(&patched) {
        Ok(t) => Ok(t),
        Err(e) => Err(ImportError::Json(e)),
    }
}

/// Two entry lists in which the same positions carry the name `name` find
/// the same first entry named `name`.
proof fn lemma_first_named_same(a: Seq<JsonView>, b: Seq<JsonView>, name: Seq<char>, i: int)
    requires
        a.len() == b.len(),
        forall|q: int| 0 <= q < a.len() ==> entry_named(#[trigger] a[q], name) == entry_named(b[q], name),
    ensures
        first_named_from(a, name, i) == first_named_from(b, name, i),
    decreases a.len() - i,
{
    if 0 <= i < a.len() {
        lemma_first_named_same(a, b, name, i + 1);
    }
}

/// Setting the icon of an entry leaves its other members as they were.
proof fn lemma_with_icon_keeps(e: JsonView, icon: Seq<char>, key: Seq<char>)
    requires
        key != "icon"@,
    ensures
        with_icon(e, icon).get(key) == e.get(key),
{
    if let JsonView::Object(g) = e {
        lemma_lookup_after_insert(g, "icon"@, JsonView::Str(icon), key);
    }
}

/// Patching the icon of profile `name` changes nothing but that icon: the
/// entries keep their order and every other member, the first profile named
/// `name` carries the new icon, and the same profiles stay registered at the
/// same locations.
pub proof fn lemma_patch_icon_effect(root: JsonView, name: Seq<char>, icon: Seq<char>)
    requires
        profiles_in(root) is Some,
        first_named(profiles_in(root)->0, name) is Some,
    ensures
        ({
            let a = profiles_in(root)->0;
            let k = first_named(a, name)->0;
            &&& profiles_in(patch_view(root, name, icon)) == Some(a.update(k, with_icon(a[k], icon)))
            &&& with_icon(a[k], icon).get("icon"@) == Some(JsonView::Str(icon))
            &&& forall|key: Seq<char>| key != "icon"@ ==> with_icon(a[k], icon).get(key) == a[k].get(key)
        }),
        forall|n: Seq<char>| #[trigger] registered_in_root(n, patch_view(root, name, icon)) == registered_in_root(n, root),
        forall|n: Seq<char>| #[trigger] location_in_root(n, patch_view(root, name, icon)) == location_in_root(n, root),
{
    reveal_strlit("icon");
    reveal_strlit("name");
    reveal_strlit("location");
    let a = profiles_in(root)->0;
    lemma_first_named_from(a, name, 0);
    let k = first_named(a, name)->0;
    let e = a[k];
    let f = root->Object_0;
    lemma_key_index_from(f, "userDataProfiles"@, 0);
    let p = key_index(f, "userDataProfiles"@)->0;
    let b = a.update(k, with_icon(e, icon));
    let f2 = f.update(p, (f[p].0, JsonView::Array(b)));
    lemma_key_index_same_keys(f, f2, "userDataProfiles"@, 0);
    assert(patch_view(root, name, icon) == JsonView::Object(f2));
    assert(profiles_in(patch_view(root, name, icon)) == Some(b));
    if let JsonView::Object(g) = e {
        lemma_lookup_after_insert(g, "icon"@, JsonView::Str(icon), "icon"@);
    }
    assert forall|key: Seq<char>| key != "icon"@ implies with_icon(e, icon).get(key) == e.get(key) by {
        lemma_with_icon_keeps(e, icon, key);
    }
    assert("name"@ != "icon"@) by {
        assert("name"@[0] != "icon"@[0]);
    }
    assert("location"@ != "icon"@) by {
        assert("location"@.len() != "icon"@.len());
    }
    assert forall|n: Seq<char>| #[trigger] registered_in_root(n, patch_view(root, name, icon)) == registered_in_root(n, root) by {
        assert forall|q: int| 0 <= q < a.len() implies entry_named(#[trigger] a[q], n) == entry_named(b[q], n) by {
            if q == k {
                lemma_with_icon_keeps(e, icon, "name"@);
            }
        }
        if registered_in_root(n, root) {
            let w = choose|q: int| 0 <= q < a.len() && #[trigger] entry_named(a[q], n);
            assert(entry_named(b[w], n));
        }
        if registered_in_root(n, patch_view(root, name, icon)) {
            let w = choose|q: int| 0 <= q < b.len() && #[trigger] entry_named(b[q], n);
            assert(entry_named(a[w], n));
        }
    }
    assert forall|n: Seq<char>| #[trigger] location_in_root(n, patch_view(root, name, icon)) == location_in_root(n, root) by {
        assert forall|q: int| 0 <= q < a.len() implies entry_named(#[trigger] a[q], n) == entry_named(b[q], n) by {
            if q == k {
                lemma_with_icon_keeps(e, icon, "name"@);
            }
        }
        lemma_first_named_same(a, b, n, 0);
        lemma_first_named_from(a, n, 0);
        if let Some(j) = first_named(a, n) {
            if j == k {
                lemma_with_icon_keeps(e, icon, "location"@);
            }
        }
    }
}

/// A profile whose directory can be resolved is a registered profile.
pub proof fn lemma_resolved_is_registered(name: Seq<char>, storage_json: Seq<char>, storage: Seq<char>)
    requires
        profile_dir_of(name, storage_json, storage) is Some,
    ensures
        registered_in(name, storage),
{
    let a = profiles_of(storage)->0;
    lemma_first_named_from(a, name, 0);
    let k = first_named(a, name)->0;
    assert(entry_named(a[k], name));
}

} // verus!
