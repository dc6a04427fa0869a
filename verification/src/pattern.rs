//! Field recovery from profile texts that are not valid JSON, by regular
//! expressions over the raw text.

use vstd::prelude::*;
use crate::json::{Json, JsonView, parse_json, spec_json_parse};
use crate::text::{chars_of, string_of, slice_chars};

verus! {

/// What `regex::escape` returns for `s`.
pub uninterp spec fn spec_regex_escape(s: Seq<char>) -> Seq<char>;

/// `s` with every regular-expression meta character escaped.
///
/// Trusted: calls `regex::escape`; the contract names its result, which
/// depends on `s` alone.
#[verifier::external_body]
pub fn regex_escape(s: &str) -> (res: String)
    ensures
        res@ == spec_regex_escape(s@),
{
    regex::escape(s)
}

/// The text of capture group 1 of the leftmost match of `pattern` in `text`;
/// `None` when `pattern` does not compile, nothing matches, or group 1 takes
/// no part in the match.
pub uninterp spec fn spec_regex_capture1(pattern: Seq<char>, text: Seq<char>) -> Option<Seq<char>>;

/// Capture group 1 of the leftmost match of `pattern` in `text`.
///
/// Trusted: calls `regex::Regex::new` and `Regex::captures`; the contract
/// names the outcome, which depends on `pattern` and `text` alone.
#[verifier::external_body]
pub fn regex_capture1(pattern: &str, text: &str) -> (res: Option<String>)
    ensures
        match res {
            Some(s) => spec_regex_capture1(pattern@, text@) == Some(s@),
            None => spec_regex_capture1(pattern@, text@) is None,
        },
{
    let caps = regex::Regex::new(pattern).ok()?.captures(text)?;
    caps.get(1).map(|m| m.as_str().to_string())
}

/// The part of `text` after the leftmost match of `pattern`; `None` when
/// `pattern` does not compile or nothing matches.
pub uninterp spec fn spec_regex_rest_after(pattern: Seq<char>, text: Seq<char>) -> Option<Seq<char>>;

/// The part of `text` that follows the leftmost match of `pattern`.
///
/// Trusted: calls `regex::Regex::new` and `Regex::find`; the contract names
/// the outcome, which depends on `pattern` and `text` alone.
#[verifier::external_body]
pub fn regex_rest_after(pattern: &str, text: &str) -> (res: Option<String>)
    ensures
        match res {
            Some(s) => spec_regex_rest_after(pattern@, text@) == Some(s@),
            None => spec_regex_rest_after(pattern@, text@) is None,
        },
{
    let m = regex::Regex::new(pattern).ok()?.find(text)?;
    Some(text[m.end()..].to_string())
}

/// The pattern that finds `"key": "value"` for an escaped key `e`; group 1 is
/// the raw text of the value.
pub open spec fn string_field_pattern(e: Seq<char>) -> Seq<char> {
    "\\\""@ + e + "\\\"\\s*:\\s*\"((?:[^\"\\\\]|\\\\.)*)\""@
}

/// The pattern that finds `"key":` for an escaped key `e`.
pub open spec fn any_field_pattern(e: Seq<char>) -> Seq<char> {
    "\\\""@ + e + "\\\"\\s*:\\s*"@
}

/// The raw (still escaped) text of the first string member `key` in `raw`.
pub open spec fn string_field(raw: Seq<char>, key: Seq<char>) -> Option<Seq<char>> {
    spec_regex_capture1(string_field_pattern(spec_regex_escape(key)), raw)
}

/// ASCII whitespace as `u8::is_ascii_whitespace` knows it.
pub open spec fn is_ascii_white_space(c: char) -> bool {
    c == ' ' || c == '\t' || c == '\n' || c == '\u{c}' || c == '\r'
}

/// `s` without its leading ASCII whitespace.
pub open spec fn skip_ascii_white_space(s: Seq<char>) -> Seq<char>
    decreases s.len(),
{
    if s.len() > 0 && is_ascii_white_space(s[0]) {
        skip_ascii_white_space(s.drop_first())
    } else {
        s
    }
}

/// The JSON value that follows the first `"key":` in `raw`, when all the rest
/// of `raw` is that one value.
pub open spec fn any_field(raw: Seq<char>, key: Seq<char>) -> Option<JsonView> {
    match spec_regex_rest_after(any_field_pattern(spec_regex_escape(key)), raw) {
        None => None,
        Some(rest) => {
            let t = skip_ascii_white_space(rest);
            if t.len() == 0 {
                None
            } else {
                spec_json_parse(t)
            }
        },
    }
}

fn string_pattern_for(key: &str) -> (res: String)
    ensures
        res@ == string_field_pattern(spec_regex_escape(key@)),
{
    let e = regex_escape(key);
    let mut p = String::from_str("\\\"");
    p.append(e.as_str());
    p.append("\\\"\\s*:\\s*\"((?:[^\"\\\\]|\\\\.)*)\"");
    p
}

fn any_pattern_for(key: &str) -> (res: String)
    ensures
        res@ == any_field_pattern(spec_regex_escape(key@)),
{
    let e = regex_escape(key);
    let mut p = String::from_str("\\\"");
    p.append(e.as_str());
    p.append("\\\"\\s*:\\s*");
    p
}

/// The raw text of the first string member `key` found in `raw`.
pub fn extract_string_field(raw: &str, key: &str) -> (res: Option<String>)
    ensures
        match res {
            Some(s) => string_field(raw@, key@) == Some(s@),
            None => string_field(raw@, key@) is None,
        },
{
    let pattern = string_pattern_for(key);
    regex_capture1(pattern.as_str(), raw)
}

fn ascii_white_space(c: char) -> (res: bool)
    ensures
        res == is_ascii_white_space(c),
{
    c == ' ' || c == '\t' || c == '\n' || c == '\u{c}' || c == '\r'
}

proof fn lemma_skip_prefix(s: Seq<char>, i: int)
    requires
        0 <= i <= s.len(),
        forall|k: int| 0 <= k < i ==> is_ascii_white_space(#[trigger] s[k]),
    ensures
        skip_ascii_white_space(s) == skip_ascii_white_space(s.subrange(i, s.len() as int)),
    decreases i,
{
    if i > 0 {
        let t = s.drop_first();
        assert forall|k: int| 0 <= k < i - 1 implies is_ascii_white_space(#[trigger] t[k]) by {
            assert(t[k] == s[k + 1]);
        }
        lemma_skip_prefix(t, i - 1);
        assert(t.subrange(i - 1, t.len() as int) =~= s.subrange(i, s.len() as int));
    } else {
        assert(s.subrange(0, s.len() as int) =~= s);
    }
}

/// The JSON value that follows the first `"key":` in `raw`, when the rest of
/// `raw` is exactly one JSON value.
pub fn extract_any_field(raw: &str, key: &str) -> (res: Option<Json>)
    ensures
        match res {
            Some(v) => any_field(raw@, key@) == Some(v@),
            None => any_field(raw@, key@) is None,
        },
{
    let pattern = any_pattern_for(key);
    let rest = match regex_rest_after(pattern.as_str(), raw) {
        Some(r) => r,
        None => return None,
    };
    let cs = chars_of(rest.as_str());
    let mut i: usize = 0;
    while i < cs.len() && ascii_white_space(cs[i])
        invariant
            i <= cs.len(),
            forall|k: int| 0 <= k < i ==> is_ascii_white_space(#[trigger] cs@[k]),
        decreases cs.len() - i,
    {
        i = i + 1;
    }
    proof {
        lemma_skip_prefix(cs@, i as int);
    }
    if i >= cs.len() {
        return None;
    }
    let tail = slice_chars(&cs, i, cs.len());
    let tail_text = string_of(tail.as_slice());
    match parse_json(tail_text.as_str()) {
        Ok(v) => Some(v),
        Err(_) => None,
    }
}

} // verus!
