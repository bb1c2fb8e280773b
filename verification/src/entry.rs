//! Asking the user for the entry point of a deployed application.
//!
//! The host asks and looks at the disk; the library says whether to ask,
//! what to ask, which path to look at, and what to record.

use crate::config::{ConfigFile, ConfigView};
use crate::text::{chars_of, find, occurs_at, trim, trimmed};
use vstd::prelude::*;
use vstd::string::*;

verus! {

/// Whether `pat` occurs somewhere in `s`.
pub open spec fn holds_text(s: Seq<char>, pat: Seq<char>) -> bool {
    exists|i: int| occurs_at(s, pat, i)
}

/// Whether the descriptor records an entry point under the destination `to`.
pub open spec fn entry_recorded(config: ConfigView, to: Seq<char>) -> bool {
    config.entry_point matches Some(e) && holds_text(e, to)
}

/// The question to put to the user.
pub open spec fn entry_question(name: Seq<char>, to: Seq<char>) -> Seq<char> {
    "Please insert your entry point name for the app ["@ + name + "] located at the folder "@
        + to
}

/// The path that the user's answer names under the destination `to`; none
/// for an answer that is blank.
pub open spec fn entry_candidate(to: Seq<char>, answer: Seq<char>) -> Option<Seq<char>> {
    if trimmed(answer).len() == 0 {
        None
    } else {
        Some(to + "/"@ + answer)
    }
}

/// `to` without one `/` at its end.
pub open spec fn without_final_slash(to: Seq<char>) -> Seq<char> {
    if to.len() > 0 && to.last() == '/' {
        to.drop_last()
    } else {
        to
    }
}

/// The entry point to record: the answer under the destination, with a
/// single `/` between them where the destination ends in one.
pub open spec fn entry_path(to: Seq<char>, answer: Seq<char>) -> Seq<char> {
    without_final_slash(to) + "/"@ + answer
}

/// Whether the descriptor records an entry point under the destination `to`.
pub fn entry_point_recorded(config: &ConfigFile, to: &str) -> (r: bool)
    ensures
        r == entry_recorded(config@, to@),
{
    match &config.entry_point {
        None => false,
        Some(e) => {
            let hay = chars_of(e.as_str());
            let needle = chars_of(to);
            find(&hay, &needle).is_some()
        },
    }
}

/// Builds [`entry_question`].
pub fn entry_point_question(name: &str, to: &str) -> (r: String)
    ensures
        r@ == entry_question(name@, to@),
{
    let mut r = String::from_str("Please insert your entry point name for the app [");
    r.append(name);
    r.append("] located at the folder ");
    r.append(to);
    r
}

/// The path to look at for the user's answer, or none for a blank answer.
pub fn entry_point_candidate(to: &str, answer: &str) -> (r: Option<String>)
    ensures
        r.deep_view() == entry_candidate(to@, answer@),
{
    if trim(answer).unicode_len() == 0 {
        None
    } else {
        let mut r = String::from_str(to);
        r.append("/");
        r.append(answer);
        Some(r)
    }
}

/// The entry point to record for the user's answer.
pub fn entry_point_path(to: &str, answer: &str) -> (r: String)
    ensures
        r@ == entry_path(to@, answer@),
{
    let v = chars_of(to);
    let n = v.len();
    let base = if n > 0 && v[n - 1] == '/' {
        assert(to@.subrange(0, n - 1) =~= to@.drop_last());
        to.substring_char(0, n - 1)
    } else {
        to
    };
    let mut r = String::from_str(base);
    r.append("/");
    r.append(answer);
    r
}

} // verus!
