//! Filesystem-safe folder names for profiles.

use vstd::prelude::*;
use crate::text::{
    trim, trim_chars, chars_of, string_of, is_white_space, lemma_trim_idempotent,
    lemma_trim_no_edge_white_space, trim_start, trim_end,
};

verus! {

/// The characters that cannot stand in a folder name: `/ \ : * ? " < > |`.
pub open spec fn is_forbidden(c: char) -> bool {
    c == '/' || c == '\\' || c == ':' || c == '*' || c == '?' || c == '"' || c == '<' || c
        == '>' || c == '|'
}

/// `s` with every forbidden character replaced by `_`.
pub open spec fn replace_forbidden(s: Seq<char>) -> Seq<char> {
    s.map_values(|c: char| if is_forbidden(c) { '_' } else { c })
}

/// The folder name of a profile called `s`: forbidden characters become `_`
/// and surrounding whitespace is dropped (a blank name gives the empty
/// name).
pub open spec fn folder_name_of(s: Seq<char>) -> Seq<char> {
    trim(replace_forbidden(s))
}

fn forbidden(c: char) -> (res: bool)
    ensures
        res == is_forbidden(c),
{
    c == '/' || c == '\\' || c == ':' || c == '*' || c == '?' || c == '"' || c == '<' || c
        == '>' || c == '|'
}

/// Filesystem-safe folder name for a profile called `s`.
pub fn make_folder_name(s: &str) -> (res: String)
    ensures
        res@ == folder_name_of(s@),
        forall|i: int| 0 <= i < res@.len() ==> !is_forbidden(#[trigger] res@[i]),
        res@.len() > 0 ==> !is_white_space(res@[0]) && !is_white_space(res@.last()),
        trim(s@).len() > 0 ==> res@.len() > 0,
{
    let cs = chars_of(s);
    let mut out: Vec<char> = Vec::new();
    let mut i: usize = 0;
    while i < cs.len()
        invariant
            i <= cs.len(),
            out@ == replace_forbidden(cs@.subrange(0, i as int)),
        decreases cs.len() - i,
    {
        let c = cs[i];
        if forbidden(c) {
            out.push('_');
        } else {
            out.push(c);
        }
        i = i + 1;
        assert(out@ =~= replace_forbidden(cs@.subrange(0, i as int)));
    }
    assert(cs@.subrange(0, cs@.len() as int) =~= cs@);
    let t = trim_chars(&out);
    proof {
        lemma_folder_name_props(s@);
    }
    string_of(t.as_slice())
}

/// Another name for [`make_folder_name`]: it returns exactly the same name.
pub fn make_safe_basename(s: &str) -> (res: String)
    ensures
        res@ == folder_name_of(s@),
{
    make_folder_name(s)
}

/// A subsequence of `s` keeps the absence of forbidden characters.
proof fn lemma_trim_keeps_allowed(s: Seq<char>)
    requires
        forall|i: int| 0 <= i < s.len() ==> !is_forbidden(#[trigger] s[i]),
    ensures
        forall|i: int| 0 <= i < trim(s).len() ==> !is_forbidden(#[trigger] trim(s)[i]),
{
    lemma_trim_is_infix(s);
}

/// `trim(s)` is a contiguous piece of `s`.
proof fn lemma_trim_is_infix(s: Seq<char>)
    ensures
        exists|a: int, b: int| 0 <= a <= b <= s.len() && trim(s) == s.subrange(a, b),
{
    let (a, b) = lemma_trim_bounds(s);
}

proof fn lemma_trim_start_suffix(s: Seq<char>) -> (a: int)
    ensures
        0 <= a <= s.len(),
        trim_start(s) == s.subrange(a, s.len() as int),
    decreases s.len(),
{
    if s.len() > 0 && is_white_space(s[0]) {
        let a0 = lemma_trim_start_suffix(s.drop_first());
        assert(s.drop_first().subrange(a0, s.len() - 1) =~= s.subrange(a0 + 1, s.len() as int));
        a0 + 1
    } else {
        assert(s.subrange(0, s.len() as int) =~= s);
        0
    }
}

proof fn lemma_trim_end_prefix(s: Seq<char>) -> (b: int)
    ensures
        0 <= b <= s.len(),
        trim_end(s) == s.subrange(0, b),
    decreases s.len(),
{
    if s.len() > 0 && is_white_space(s.last()) {
        let b0 = lemma_trim_end_prefix(s.drop_last());
        assert(s.drop_last().subrange(0, b0) =~= s.subrange(0, b0));
        b0
    } else {
        assert(s.subrange(0, s.len() as int) =~= s);
        s.len() as int
    }
}

proof fn lemma_trim_bounds(s: Seq<char>) -> (r: (int, int))
    ensures
        0 <= r.0 <= r.1 <= s.len(),
        trim(s) == s.subrange(r.0, r.1),
{
    let a = lemma_trim_start_suffix(s);
    let u = trim_start(s);
    let b = lemma_trim_end_prefix(u);
    assert(u.subrange(0, b) =~= s.subrange(a, a + b));
    (a, a + b)
}

/// A sequence that holds a character other than whitespace keeps something
/// when trimmed.
proof fn lemma_trim_keeps_non_white(s: Seq<char>, i: int)
    requires
        0 <= i < s.len(),
        !is_white_space(s[i]),
    ensures
        trim(s).len() > 0,
{
    lemma_trim_start_keeps(s, i);
    lemma_trim_no_edge_white_space(s);
    lemma_trim_end_keeps(trim_start(s));
}

proof fn lemma_trim_start_keeps(s: Seq<char>, i: int)
    requires
        0 <= i < s.len(),
        !is_white_space(s[i]),
    ensures
        trim_start(s).len() > 0,
    decreases s.len(),
{
    if is_white_space(s[0]) {
        lemma_trim_start_keeps(s.drop_first(), i - 1);
    }
}

proof fn lemma_trim_end_keeps(t: Seq<char>)
    requires
        t.len() > 0,
        !is_white_space(t[0]),
    ensures
        trim_end(t).len() > 0,
    decreases t.len(),
{
    if is_white_space(t.last()) {
        assert(t.len() > 1);
        assert(t.drop_last()[0] == t[0]);
        lemma_trim_end_keeps(t.drop_last());
    }
}

proof fn lemma_folder_name_props(s: Seq<char>)
    ensures
        forall|i: int|
            0 <= i < folder_name_of(s).len() ==> !is_forbidden(#[trigger] folder_name_of(s)[i]),
        folder_name_of(s).len() > 0 ==> !is_white_space(folder_name_of(s)[0])
            && !is_white_space(folder_name_of(s).last()),
        trim(s).len() > 0 ==> folder_name_of(s).len() > 0,
{
    let r = replace_forbidden(s);
    assert forall|i: int| 0 <= i < r.len() implies !is_forbidden(#[trigger] r[i]) by {}
    lemma_trim_keeps_allowed(r);
    lemma_trim_no_edge_white_space(r);
    if trim(s).len() > 0 {
        let (a, b) = lemma_trim_bounds(s);
        lemma_trim_no_edge_white_space(s);
        assert(trim(s)[0] == s[a]);
        assert(!is_white_space(r[a]));
        lemma_trim_keeps_non_white(r, a);
    }
}

/// A name that is not blank has a folder name that is not empty, free of
/// forbidden characters and of surrounding whitespace.
pub proof fn lemma_folder_name_of_named(s: Seq<char>)
    requires
        trim(s).len() > 0,
    ensures
        folder_name_of(s).len() > 0,
        !is_white_space(folder_name_of(s)[0]),
        !is_white_space(folder_name_of(s).last()),
        forall|i: int|
            0 <= i < folder_name_of(s).len() ==> !is_forbidden(#[trigger] folder_name_of(s)[i]),
{
    lemma_folder_name_props(s);
}

/// A folder name is its own folder name: applying the rules twice changes
/// nothing.
pub proof fn lemma_folder_name_idempotent(s: Seq<char>)
    ensures
        folder_name_of(folder_name_of(s)) == folder_name_of(s),
{
    let f = folder_name_of(s);
    lemma_folder_name_props(s);
    assert(replace_forbidden(f) =~= f);
    lemma_trim_idempotent(replace_forbidden(s));
}

} // verus!
