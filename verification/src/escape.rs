//! Repair of profile exports that hold raw line breaks inside JSON strings.

use vstd::prelude::*;
use crate::text::{chars_of, string_of};

verus! {

/// What the repair makes of `s` when scanning starts inside a string
/// (`in_string`) and, possibly, right after a backslash (`escaped`).
///
/// Quotes that are not escaped open or close a string; a backslash that is
/// not escaped escapes the next character; inside a string a line feed, a
/// carriage return, or a carriage return followed by a line feed becomes the
/// two characters `\n`; every other character is kept.
pub open spec fn escape_from(s: Seq<char>, in_string: bool, escaped: bool) -> Seq<char>
    decreases s.len(),
{
    if s.len() == 0 {
        Seq::empty()
    } else {
        let ch = s[0];
        let rest = s.drop_first();
        if ch == '"' && !escaped {
            seq!['"'] + escape_from(rest, !in_string, false)
        } else if ch == '\\' && !escaped {
            seq!['\\'] + escape_from(rest, in_string, true)
        } else if (ch == '\n' || ch == '\r') && in_string {
            if ch == '\r' && rest.len() > 0 && rest[0] == '\n' {
                seq!['\\', 'n'] + escape_from(rest.drop_first(), in_string, false)
            } else {
                seq!['\\', 'n'] + escape_from(rest, in_string, false)
            }
        } else {
            seq![ch] + escape_from(rest, in_string, false)
        }
    }
}

/// The repaired text of `s`: scanning starts outside any string.
pub open spec fn escape_newlines(s: Seq<char>) -> Seq<char> {
    escape_from(s, false, false)
}

/// Replace every raw line break that stands inside a JSON string literal of
/// `s` by the escape `\n` (a CR LF pair becomes a single `\n`).
pub fn escape_newlines_in_strings(s: &str) -> (res: String)
    ensures
        res@ == escape_newlines(s@),
{
    let cs = chars_of(s);
    let n = cs.len();
    let mut out: Vec<char> = Vec::new();
    let mut in_string = false;
    let mut esc = false;
    let mut i: usize = 0;
    assert(cs@.subrange(0, n as int) =~= cs@);
    assert(out@ + escape_newlines(cs@) =~= escape_newlines(cs@));
    while i < n
        invariant
            n == cs.len(),
            i <= n,
            out@ + escape_from(cs@.subrange(i as int, n as int), in_string, esc) == escape_newlines(
                cs@,
            ),
        decreases n - i,
    {
        let ghost tail = cs@.subrange(i as int, n as int);
        let ch = cs[i];
        assert(tail[0] == ch);
        assert(tail.drop_first() =~= cs@.subrange(i + 1, n as int));
        if ch == '"' && !esc {
            in_string = !in_string;
            out.push(ch);
            esc = false;
            i = i + 1;
            assert(out@ + escape_from(cs@.subrange(i as int, n as int), in_string, esc) =~= escape_newlines(cs@));
        } else if ch == '\\' && !esc {
            esc = true;
            out.push(ch);
            i = i + 1;
            assert(out@ + escape_from(cs@.subrange(i as int, n as int), in_string, esc) =~= escape_newlines(cs@));
        } else if (ch == '\n' || ch == '\r') && in_string {
            if ch == '\r' && i + 1 < n && cs[i + 1] == '\n' {
                assert(tail.drop_first()[0] == cs@[i + 1]);
                assert(tail.drop_first().drop_first() =~= cs@.subrange(i + 2, n as int));
                i = i + 2;
            } else {
                i = i + 1;
            }
            out.push('\\');
            out.push('n');
            esc = false;
            assert(out@ + escape_from(cs@.subrange(i as int, n as int), in_string, esc) =~= escape_newlines(cs@));
        } else {
            out.push(ch);
            esc = false;
            i = i + 1;
            assert(out@ + escape_from(cs@.subrange(i as int, n as int), in_string, esc) =~= escape_newlines(cs@));
        }
    }
    assert(escape_from(cs@.subrange(n as int, n as int), in_string, esc) =~= Seq::<char>::empty());
    assert(out@ =~= escape_newlines(cs@));
    string_of(out.as_slice())
}

/// Text without line feeds or carriage returns is left exactly as it is,
/// whatever state scanning starts in.
pub proof fn lemma_escape_without_line_breaks(s: Seq<char>, in_string: bool, escaped: bool)
    requires
        forall|i: int| 0 <= i < s.len() ==> #[trigger] s[i] != '\n' && s[i] != '\r',
    ensures
        escape_from(s, in_string, escaped) == s,
    decreases s.len(),
{
    if s.len() > 0 {
        let rest = s.drop_first();
        assert forall|i: int| 0 <= i < rest.len() implies #[trigger] rest[i] != '\n' && rest[i]
            != '\r' by {
            assert(rest[i] == s[i + 1]);
        }
        lemma_escape_without_line_breaks(rest, !in_string, false);
        lemma_escape_without_line_breaks(rest, in_string, true);
        lemma_escape_without_line_breaks(rest, in_string, false);
        assert(s =~= seq![s[0]] + rest);
    }
}

/// Repairing twice is repairing once, from any starting state: the repaired
/// text holds no line break inside a string.
pub proof fn lemma_escape_idempotent_from(s: Seq<char>, in_string: bool, escaped: bool)
    ensures
        escape_from(escape_from(s, in_string, escaped), in_string, escaped) == escape_from(
            s,
            in_string,
            escaped,
        ),
    decreases s.len(),
{
    if s.len() > 0 {
        let ch = s[0];
        let rest = s.drop_first();
        let out = escape_from(s, in_string, escaped);
        if ch == '"' && !escaped {
            let r = escape_from(rest, !in_string, false);
            lemma_escape_idempotent_from(rest, !in_string, false);
            assert(out == seq!['"'] + r);
            assert((seq!['"'] + r).drop_first() =~= r);
        } else if ch == '\\' && !escaped {
            let r = escape_from(rest, in_string, true);
            lemma_escape_idempotent_from(rest, in_string, true);
            assert((seq!['\\'] + r).drop_first() =~= r);
        } else if (ch == '\n' || ch == '\r') && in_string {
            let rest2 = if ch == '\r' && rest.len() > 0 && rest[0] == '\n' {
                rest.drop_first()
            } else {
                rest
            };
            let r = escape_from(rest2, in_string, false);
            lemma_escape_idempotent_from(rest2, in_string, false);
            assert(out == seq!['\\', 'n'] + r);
            let o1 = (seq!['\\', 'n'] + r).drop_first();
            assert(o1 =~= seq!['n'] + r);
            assert((seq!['n'] + r).drop_first() =~= r);
            if escaped {
                assert(escape_from(seq!['n'] + r, in_string, false) == seq!['n'] + escape_from(
                    r,
                    in_string,
                    false,
                ));
            } else {
                assert(escape_from(seq!['n'] + r, in_string, true) == seq!['n'] + escape_from(
                    r,
                    in_string,
                    false,
                ));
            }
        } else {
            let r = escape_from(rest, in_string, false);
            lemma_escape_idempotent_from(rest, in_string, false);
            assert((seq![ch] + r).drop_first() =~= r);
        }
    }
}

/// Repairing a profile text twice gives the same text as repairing it once.
pub proof fn lemma_escape_newlines_idempotent(s: Seq<char>)
    ensures
        escape_newlines(escape_newlines(s)) == escape_newlines(s),
{
    lemma_escape_idempotent_from(s, false, false);
}

} // verus!
