//! JSON values as the library reads them, and the calls into `serde_json`.

use vstd::prelude::*;

verus! {

/// A JSON number, carried through unchanged.
#[verifier::external_type_specification]
#[verifier::external_body]
pub struct ExJsonNumber(serde_json::Number);

/// The error `serde_json` reports for text that is not JSON.
#[verifier::external_type_specification]
#[verifier::external_body]
pub struct ExJsonError(serde_json::Error);

/// `serde_json`'s own tree, met only inside the calls into `serde_json`.
#[verifier::external_type_specification]
#[verifier::external_body]
pub struct ExJsonValue(serde_json::Value);

/// A JSON value. An object is a list of members; objects read by
/// `serde_json` come with their keys in sorted order (its map is sorted),
/// setting a member keeps its place or adds it last, and looking up a key
/// finds its first member.
#[derive(Debug)]
pub enum Json {
    Null,
    Bool(bool),
    Number(serde_json::Number),
    Str(String),
    Array(Vec<Json>),
    Object(Vec<(String, Json)>),
}

/// The mathematical model of a [`Json`] value.
pub enum JsonView {
    Null,
    Bool(bool),
    Number(serde_json::Number),
    Str(Seq<char>),
    Array(Seq<JsonView>),
    Object(Seq<(Seq<char>, JsonView)>),
}

/// The model of `j`.
pub open spec fn json_view(j: Json) -> JsonView
    decreases j,
{
    match j {
        Json::Null => JsonView::Null,
        Json::Bool(b) => JsonView::Bool(b),
        Json::Number(n) => JsonView::Number(n),
        Json::Str(s) => JsonView::Str(s@),
        Json::Array(items) => JsonView::Array(
            Seq::new(
                items.len() as nat,
                |i: int|
                    if 0 <= i < items.len() {
                        json_view(items@[i])
                    } else {
                        JsonView::Null
                    },
            ),
        ),
        Json::Object(fields) => JsonView::Object(
            Seq::new(
                fields.len() as nat,
                |i: int|
                    if 0 <= i < fields.len() {
                        (fields@[i].0@, json_view(fields@[i].1))
                    } else {
                        (Seq::empty(), JsonView::Null)
                    },
            ),
        ),
    }
}


impl View for Json {
    type V = JsonView;

    open spec fn view(&self) -> JsonView {
        json_view(*self)
    }
}

/// The models of the members of an object, in order.
pub open spec fn fields_view(fields: Vec<(String, Json)>) -> Seq<(Seq<char>, JsonView)> {
    Seq::new(fields.len() as nat, |i: int| (fields@[i].0@, json_view(fields@[i].1)))
}

/// The models of the items of an array, in order.
pub open spec fn items_view(items: Vec<Json>) -> Seq<JsonView> {
    Seq::new(items.len() as nat, |i: int| json_view(items@[i]))
}

/// The model of an object is the object of its members' models.
pub proof fn lemma_object_view(fields: Vec<(String, Json)>)
    ensures
        json_view(Json::Object(fields)) == JsonView::Object(fields_view(fields)),
{
    if let JsonView::Object(f) = json_view(Json::Object(fields)) {
        assert(f =~= fields_view(fields));
    }
}

/// The model of an array is the array of its items' models.
pub proof fn lemma_array_view(items: Vec<Json>)
    ensures
        json_view(Json::Array(items)) == JsonView::Array(items_view(items)),
{
    if let JsonView::Array(a) = json_view(Json::Array(items)) {
        assert(a =~= items_view(items));
    }
}

/// Position of the first member named `key`, searching from position `i`.
pub open spec fn key_index_from(fields: Seq<(Seq<char>, JsonView)>, key: Seq<char>, i: int) -> Option<int>
    decreases fields.len() - i,
{
    if i < 0 || i >= fields.len() {
        None
    } else if fields[i].0 == key {
        Some(i)
    } else {
        key_index_from(fields, key, i + 1)
    }
}

/// Position of the first member named `key`.
pub open spec fn key_index(fields: Seq<(Seq<char>, JsonView)>, key: Seq<char>) -> Option<int> {
    key_index_from(fields, key, 0)
}

/// The value of the first member named `key`, as `serde_json::Map::get` finds it.
pub open spec fn lookup(fields: Seq<(Seq<char>, JsonView)>, key: Seq<char>) -> Option<JsonView> {
    match key_index(fields, key) {
        Some(p) => Some(fields[p].1),
        None => None,
    }
}

/// `fields` with the member `key` set to `value`, as `serde_json::Map::insert`
/// leaves it: an existing member keeps its place, a new one goes last.
pub open spec fn obj_insert(
    fields: Seq<(Seq<char>, JsonView)>,
    key: Seq<char>,
    value: JsonView,
) -> Seq<(Seq<char>, JsonView)> {
    match key_index(fields, key) {
        Some(p) => fields.update(p, (key, value)),
        None => fields.push((key, value)),
    }
}

impl JsonView {
    /// The member `key` of an object; nothing for any other value.
    pub open spec fn get(self, key: Seq<char>) -> Option<JsonView> {
        match self {
            JsonView::Object(fields) => lookup(fields, key),
            _ => None,
        }
    }

    /// The text of a string; nothing for any other value.
    pub open spec fn as_str(self) -> Option<Seq<char>> {
        match self {
            JsonView::Str(s) => Some(s),
            _ => None,
        }
    }
}

/// The text of `v` when it is a string, and the empty text otherwise.
pub open spec fn str_or_empty(v: Option<JsonView>) -> Seq<char> {
    match v {
        Some(JsonView::Str(s)) => s,
        _ => Seq::empty(),
    }
}

/// What `key_index_from` finds is a member named `key`, and no earlier one
/// from `i` on is.
pub proof fn lemma_key_index_from(fields: Seq<(Seq<char>, JsonView)>, key: Seq<char>, i: int)
    requires
        0 <= i,
    ensures
        key_index_from(fields, key, i) matches Some(p) ==> i <= p < fields.len() && fields[p].0
            == key && forall|q: int| i <= q < p ==> fields[q].0 != key,
        key_index_from(fields, key, i) is None ==> forall|q: int|
            i <= q < fields.len() ==> fields[q].0 != key,
    decreases fields.len() - i,
{
    if i < fields.len() && fields[i].0 != key {
        lemma_key_index_from(fields, key, i + 1);
    }
}

/// Two member lists with the same keys at every position find the same
/// position for any key.
pub proof fn lemma_key_index_same_keys(
    f1: Seq<(Seq<char>, JsonView)>,
    f2: Seq<(Seq<char>, JsonView)>,
    key: Seq<char>,
    i: int,
)
    requires
        f1.len() == f2.len(),
        forall|q: int| 0 <= q < f1.len() ==> #[trigger] f1[q].0 == f2[q].0,
    ensures
        key_index_from(f1, key, i) == key_index_from(f2, key, i),
    decreases f1.len() - i,
{
    if 0 <= i < f1.len() {
        lemma_key_index_same_keys(f1, f2, key, i + 1);
    }
}

proof fn lemma_key_index_push(f: Seq<(Seq<char>, JsonView)>, x: (Seq<char>, JsonView), key: Seq<char>, i: int)
    requires
        0 <= i <= f.len(),
    ensures
        key_index_from(f, key, i) matches Some(p) ==> key_index_from(f.push(x), key, i) == Some(p),
        key_index_from(f, key, i) is None ==> key_index_from(f.push(x), key, i) == (if x.0 == key {
            Some(f.len() as int)
        } else {
            None::<int>
        }),
    decreases f.len() - i,
{
    if i < f.len() {
        lemma_key_index_push(f, x, key, i + 1);
        assert(f.push(x)[i] == f[i]);
    } else {
        assert(f.push(x)[i] == x);
        assert(key_index_from(f.push(x), key, i + 1) is None);
    }
}

/// After setting member `key` to `v`, looking up `key` finds `v`, and looking
/// up any other key finds what it found before.
pub proof fn lemma_lookup_after_insert(
    f: Seq<(Seq<char>, JsonView)>,
    key: Seq<char>,
    v: JsonView,
    other: Seq<char>,
)
    ensures
        lookup(obj_insert(f, key, v), key) == Some(v),
        other != key ==> lookup(obj_insert(f, key, v), other) == lookup(f, other),
{
    lemma_key_index_from(f, key, 0);
    lemma_key_index_from(f, other, 0);
    match key_index(f, key) {
        Some(p) => {
            let g = f.update(p, (key, v));
            lemma_key_index_same_keys(f, g, key, 0);
            lemma_key_index_same_keys(f, g, other, 0);
        },
        None => {
            lemma_key_index_push(f, (key, v), key, 0);
            lemma_key_index_push(f, (key, v), other, 0);
        },
    }
}

/// Position of the first member of `fields` named `key`.
pub fn find_key(fields: &Vec<(String, Json)>, key: &str) -> (res: Option<usize>)
    ensures
        match res {
            Some(p) => key_index(fields_view(*fields), key@) == Some(p as int) && p < fields.len(),
            None => key_index(fields_view(*fields), key@) is None,
        },
{
    let ghost fv = fields_view(*fields);
    let mut i: usize = 0;
    while i < fields.len()
        invariant
            i <= fields.len(),
            fv == fields_view(*fields),
            key_index_from(fv, key@, 0) == key_index_from(fv, key@, i as int),
        decreases fields.len() - i,
    {
        if same_key(&fields[i].0, key) {
            return Some(i);
        }
        i = i + 1;
    }
    None
}

fn same_key(k: &String, key: &str) -> (res: bool)
    ensures
        res == (k@ == key@),
{
    crate::text::same_text(k.as_str(), key)
}

/// The value of the first member of `fields` named `key`.
pub fn object_get<'a>(fields: &'a Vec<(String, Json)>, key: &str) -> (res: Option<&'a Json>)
    ensures
        match res {
            Some(v) => lookup(fields_view(*fields), key@) == Some(v@),
            None => lookup(fields_view(*fields), key@) is None,
        },
{
    match find_key(fields, key) {
        Some(p) => Some(&fields[p].1),
        None => None,
    }
}

/// The member `key` of `j` when `j` is an object.
pub fn json_get<'a>(j: &'a Json, key: &str) -> (res: Option<&'a Json>)
    ensures
        match res {
            Some(v) => j@.get(key@) == Some(v@),
            None => j@.get(key@) is None,
        },
{
    match j {
        Json::Object(fields) => {
            proof {
                lemma_object_view(*fields);
            }
            object_get(fields, key)
        },
        _ => None,
    }
}

/// The text of `j` when it is a string.
pub fn json_as_str(j: &Json) -> (res: Option<&String>)
    ensures
        match res {
            Some(s) => j@.as_str() == Some(s@),
            None => j@.as_str() is None,
        },
{
    match j {
        Json::Str(s) => Some(s),
        _ => None,
    }
}

/// Set the member `key` of `fields` to `value` (see [`obj_insert`]).
pub fn object_insert(fields: &mut Vec<(String, Json)>, key: String, value: Json)
    ensures
        fields_view(*final(fields)) == obj_insert(fields_view(*old(fields)), key@, value@),
{
    let ghost before = fields_view(*fields);
    match find_key(fields, key.as_str()) {
        Some(p) => {
            let _ = fields.remove(p);
            fields.insert(p, (key, value));
            assert(fields_view(*fields) =~= before.update(p as int, (key@, value@)));
        },
        None => {
            fields.push((key, value));
            assert(fields_view(*fields) =~= before.push((key@, value@)));
        },
    }
}

/// What `serde_json::from_str::<serde_json::Value>` makes of `text`: the
/// value read, or the error reported.
pub uninterp spec fn spec_json_read(text: Seq<char>) -> Result<JsonView, serde_json::Error>;

/// The value `text` holds as JSON, when it is JSON.
pub open spec fn spec_json_parse(text: Seq<char>) -> Option<JsonView> {
    match spec_json_read(text) {
        Ok(v) => Some(v),
        Err(_) => None,
    }
}

/// Parse `text` as one JSON value (surrounding whitespace allowed).
///
/// Trusted: calls `serde_json::from_str::<serde_json::Value>` and converts
/// the tree; the contract names the outcome, which depends on `text` alone.
#[verifier::external_body]
pub fn parse_json(text: &str) -> (res: Result<Json, serde_json::Error>)
    ensures
        match res {
            Ok(j) => spec_json_read(text@) == Ok::<JsonView, serde_json::Error>(j@),
            Err(e) => spec_json_read(text@) == Err::<JsonView, serde_json::Error>(e),
        },
{
    serde_json::from_str::<serde_json::Value>(text).map(json_from_serde)
}

/// What `serde_json::to_string_pretty` makes of a value: the text, or the
/// error reported.
pub uninterp spec fn spec_json_pretty(v: JsonView) -> Result<Seq<char>, serde_json::Error>;

/// Pretty-printed JSON text of `j` (members of an object in key order).
///
/// Trusted: converts `j` to a `serde_json::Value` and calls
/// `serde_json::to_string_pretty`; the contract names the outcome, which
/// depends on the model of `j` alone.
#[verifier::external_body]
pub fn json_to_pretty_string(j: &Json) -> (res: Result<String, serde_json::Error>)
    ensures
        match res {
            Ok(s) => spec_json_pretty(j@) == Ok::<Seq<char>, serde_json::Error>(s@),
            Err(e) => spec_json_pretty(j@) == Err::<Seq<char>, serde_json::Error>(e),
        },
{
    serde_json::to_string_pretty(&json_into_serde(j))
}

/// Conversion of `serde_json`'s tree into a [`Json`], one variant for one,
/// members in the map's order. Used only by [`parse_json`].
#[verifier::external_body]
fn json_from_serde(v: serde_json::Value) -> Json {
    match v {
        serde_json::Value::Null => Json::Null,
        serde_json::Value::Bool(b) => Json::Bool(b),
        serde_json::Value::Number(n) => Json::Number(n),
        serde_json::Value::String(s) => Json::Str(s),
        serde_json::Value::Array(a) => Json::Array(a.into_iter().map(json_from_serde).collect()),
        serde_json::Value::Object(m) => Json::Object(
            m.into_iter().map(|(k, x)| (k, json_from_serde(x))).collect(),
        ),
    }
}

/// Conversion of a [`Json`] into `serde_json`'s tree, one variant for one.
/// Used only by [`json_to_pretty_string`].
#[verifier::external_body]
fn json_into_serde(j: &Json) -> serde_json::Value {
    match j {
        Json::Null => serde_json::Value::Null,
        Json::Bool(b) => serde_json::Value::Bool(*b),
        Json::Number(n) => serde_json::Value::Number(n.clone()),
        Json::Str(s) => serde_json::Value::String(s.clone()),
        Json::Array(a) => serde_json::Value::Array(a.iter().map(json_into_serde).collect()),
        Json::Object(m) => serde_json::Value::Object(
            m.iter().map(|(k, x)| (k.clone(), json_into_serde(x))).collect(),
        ),
    }
}

} // verus!
