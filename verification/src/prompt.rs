//! Interpretation of the user's answers to the import's questions, and the
//! default location of `storage.json`.

use vstd::prelude::*;
use crate::storage::{path_join, spec_path_join};
use crate::text::{same_text, spec_to_lowercase, to_lowercase, trim, trim_str};

verus! {

/// The answer as compared: trimmed, then lowercased.
pub open spec fn normalised(answer: Seq<char>) -> Seq<char> {
    spec_to_lowercase(trim(answer))
}

/// The choice an answer to "overwrite the existing profile?" makes: `o` or
/// `overwrite` overwrites, `c` or `cancel` cancels; any other answer makes
/// none, and the question is asked again.
pub open spec fn overwrite_choice(answer: Seq<char>) -> Option<Seq<char>> {
    let a = normalised(answer);
    if a == "o"@ || a == "overwrite"@ {
        Some("overwrite"@)
    } else if a == "c"@ || a == "cancel"@ {
        Some("cancel"@)
    } else {
        None
    }
}

/// The choice an answer to "skip, retry or abort?" makes: `s`/`skip`,
/// `r`/`retry` or `a`/`abort`; any other answer makes none.
pub open spec fn failure_choice(answer: Seq<char>) -> Option<Seq<char>> {
    let a = normalised(answer);
    if a == "s"@ || a == "skip"@ {
        Some("skip"@)
    } else if a == "r"@ || a == "retry"@ {
        Some("retry"@)
    } else if a == "a"@ || a == "abort"@ {
        Some("abort"@)
    } else {
        None
    }
}

fn normalise(answer: &str) -> (res: String)
    ensures
        res@ == normalised(answer@),
{
    let t = trim_str(answer);
    to_lowercase(t.as_str())
}

/// The choice made by an answer to the overwrite question.
pub fn interpret_overwrite_answer(answer: &str) -> (res: Option<String>)
    ensures
        match res {
            Some(c) => overwrite_choice(answer@) == Some(c@),
            None => overwrite_choice(answer@) is None,
        },
{
    let a = normalise(answer);
    if same_text(a.as_str(), "o") || same_text(a.as_str(), "overwrite") {
        Some(String::from_str("overwrite"))
    } else if same_text(a.as_str(), "c") || same_text(a.as_str(), "cancel") {
        Some(String::from_str("cancel"))
    } else {
        None
    }
}

/// The choice made by an answer to the question after a failed install.
pub fn interpret_failure_answer(answer: &str) -> (res: Option<String>)
    ensures
        match res {
            Some(c) => failure_choice(answer@) == Some(c@),
            None => failure_choice(answer@) is None,
        },
{
    let a = normalise(answer);
    if same_text(a.as_str(), "s") || same_text(a.as_str(), "skip") {
        Some(String::from_str("skip"))
    } else if same_text(a.as_str(), "r") || same_text(a.as_str(), "retry") {
        Some(String::from_str("retry"))
    } else if same_text(a.as_str(), "a") || same_text(a.as_str(), "abort") {
        Some(String::from_str("abort"))
    } else {
        None
    }
}

/// Whether an answer to a yes-or-no question says yes: `y` or `yes`, in any
/// case and with surrounding whitespace; any other answer says no.
pub open spec fn says_yes(answer: Seq<char>) -> bool {
    let a = normalised(answer);
    a == "y"@ || a == "yes"@
}

/// Whether an answer to a yes-or-no question says yes.
pub fn interpret_yes_answer(answer: &str) -> (res: bool)
    ensures
        res == says_yes(answer@),
{
    let a = normalise(answer);
    same_text(a.as_str(), "y") || same_text(a.as_str(), "yes")
}

/// Where VS Code keeps `storage.json` under the home directory `home`
/// (the current directory when there is no home).
pub open spec fn default_storage_path(home: Option<Seq<char>>) -> Seq<char> {
    let base = match home {
        Some(h) => h,
        None => "."@,
    };
    spec_path_join(base, ".config/Code/User/globalStorage/storage.json"@)
}

/// Default path of VS Code's `storage.json` for the home directory `home`.
pub fn default_storage_json(home: Option<&str>) -> (res: String)
    ensures
        res@ == default_storage_path(
            match home {
                Some(h) => Some(h@),
                None => None,
            },
        ),
{
    let base = match home {
        Some(h) => h,
        None => ".",
    };
    path_join(base, ".config/Code/User/globalStorage/storage.json")
}

} // verus!
