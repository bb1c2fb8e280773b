//! Reading the text of an environment file.
//!
//! Each line that holds a `=` gives one entry: the key is what stands
//! before the first `=`, the value what follows it, both without the white
//! space around them. Every other line gives nothing.

use crate::text::{chars_of, has_char, lemma_text_before, occurs_at, text_before, trim, trimmed};
use vstd::prelude::*;
use vstd::string::*;

verus! {

/// The line feed, as a pattern.
pub open spec fn line_feed() -> Seq<char> {
    seq!['\n']
}

/// The first line of a text that is not empty: what stands before the first
/// line feed, without the carriage return that may precede that line feed.
pub open spec fn first_line(s: Seq<char>) -> Seq<char> {
    let raw = text_before(s, line_feed());
    if raw.len() < s.len() && raw.len() > 0 && raw.last() == '\r' {
        raw.drop_last()
    } else {
        raw
    }
}

/// What follows the first line of a text and its line feed.
pub open spec fn after_first_line(s: Seq<char>) -> Seq<char> {
    let raw = text_before(s, line_feed());
    if raw.len() < s.len() {
        s.skip(raw.len() as int + 1)
    } else {
        Seq::empty()
    }
}

/// The entry that a line gives: key and value, or nothing where the line
/// holds no `=`.
pub open spec fn entry_of(line: Seq<char>) -> Option<(Seq<char>, Seq<char>)> {
    if line.contains('=') {
        let key = text_before(line, seq!['=']);
        Some((trimmed(key), trimmed(line.skip(key.len() as int + 1))))
    } else {
        None
    }
}

/// The entries of a text, in the order of its lines.
pub open spec fn entries_of(s: Seq<char>) -> Seq<(Seq<char>, Seq<char>)>
    decreases s.len(),
{
    if s.len() == 0 {
        Seq::empty()
    } else {
        let rest = entries_of(after_first_line(s));
        match entry_of(first_line(s)) {
            Some(e) => seq![e] + rest,
            None => rest,
        }
    }
}

/// What a list of pairs of strings holds.
pub open spec fn pairs_view(v: Seq<(String, String)>) -> Seq<(Seq<char>, Seq<char>)> {
    v.map_values(|p: (String, String)| (p.0@, p.1@))
}

/// Where the character `c` first stands in `s` from position `from` on, or
/// the length of `s` where it does not.
fn position_of(v: &Vec<char>, from: usize, c: char) -> (k: usize)
    requires
        from <= v.len(),
    ensures
        from <= k <= v.len(),
        forall|j: int| from <= j < k ==> v@[j] != c,
        k < v.len() ==> v@[k as int] == c,
{
    let n = v.len();
    let mut k = from;
    while k < n && v[k] != c
        invariant
            from <= k <= n,
            n == v.len(),
            forall|j: int| from <= j < k ==> v@[j] != c,
        decreases n - k,
    {
        k += 1;
    }
    k
}

/// In the rest of `s` from `from` on, what stands before the first `c` is
/// what stands before position `k`, where `k` is as [`position_of`] finds it.
proof fn lemma_cut_at(s: Seq<char>, from: int, k: int, c: char)
    requires
        0 <= from <= k <= s.len(),
        forall|j: int| from <= j < k ==> s[j] != c,
        k < s.len() ==> s[k] == c,
    ensures
        text_before(s.skip(from), seq![c]) == s.subrange(from, k),
{
    let rest = s.skip(from);
    let pat = seq![c];
    assert forall|j: int| 0 <= j < k - from implies !occurs_at(rest, pat, j) by {
        if occurs_at(rest, pat, j) {
            assert(rest.subrange(j, j + 1)[0] == pat[0]);
            assert(rest[j] == s[j + from]);
        }
    }
    if k < s.len() {
        assert(rest.subrange(k - from, k - from + 1) =~= pat);
    }
    lemma_text_before(rest, pat, k - from);
    assert(rest.take(k - from) =~= s.subrange(from, k));
}

/// Reads the entry of one line.
pub fn parse_env_line(line: &str) -> (r: Option<(String, String)>)
    ensures
        match r {
            Some((key, value)) => entry_of(line@) == Some((key@, value@)),
            None => entry_of(line@) is None,
        },
{
    let v = chars_of(line);
    let n = v.len();
    let k = position_of(&v, 0, '=');
    if k == n {
        assert(!line@.contains('='));
        return None;
    }
    proof {
        assert(line@[k as int] == '=');
        lemma_cut_at(line@, 0, k as int, '=');
        assert(line@.skip(0) =~= line@);
        assert(line@.subrange(k + 1, n as int) =~= line@.skip(k + 1));
    }
    let key = trim(line.substring_char(0, k));
    let value = trim(line.substring_char(k + 1, n));
    Some((String::from_str(key), String::from_str(value)))
}

/// Reads the entries of an environment file, in the order of its lines. A
/// key may come more than once: the last entry of a key is the one that
/// counts.
pub fn parse_env(contents: &str) -> (r: Vec<(String, String)>)
    ensures
        pairs_view(r@) == entries_of(contents@),
{
    let v = chars_of(contents);
    let n = v.len();
    let mut entries: Vec<(String, String)> = Vec::new();
    let mut pos: usize = 0;
    assert(contents@.skip(0) =~= contents@);
    assert(pairs_view(entries@) =~= Seq::empty());
    while pos < n
        invariant
            pos <= n,
            n == v.len(),
            v@ == contents@,
            entries_of(contents@) == pairs_view(entries@) + entries_of(contents@.skip(pos as int)),
        decreases n - pos,
    {
        let k = position_of(&v, pos, '\n');
        let ghost rest = contents@.skip(pos as int);
        let end = if k < n && k > pos && v[k - 1] == '\r' {
            k - 1
        } else {
            k
        };
        let line = contents.substring_char(pos, end);
        let next: usize = if k < n {
            k + 1
        } else {
            n
        };
        proof {
            lemma_cut_at(contents@, pos as int, k as int, '\n');
            let raw = text_before(rest, line_feed());
            assert(raw == contents@.subrange(pos as int, k as int));
            assert(rest.len() == n - pos);
            if k > pos {
                assert(raw.last() == contents@[k - 1]);
                assert(raw.drop_last() =~= contents@.subrange(pos as int, k - 1));
            }
            assert(line@ == first_line(rest));
            if k < n {
                assert(rest.skip(k - pos + 1) =~= contents@.skip(k + 1));
            } else {
                assert(contents@.skip(n as int) =~= Seq::<char>::empty());
            }
            assert(after_first_line(rest) == contents@.skip(next as int));
        }
        let ghost before = pairs_view(entries@);
        match parse_env_line(line) {
            Some(entry) => {
                let ghost e = (entry.0@, entry.1@);
                entries.push(entry);
                proof {
                    assert(pairs_view(entries@) =~= before.push(e));
                    assert(before.push(e) + entries_of(contents@.skip(next as int)) =~= before + (
                    seq![e] + entries_of(contents@.skip(next as int))));
                }
            },
            None => {},
        }
        pos = next;
    }
    proof {
        assert(contents@.skip(n as int) =~= Seq::<char>::empty());
        assert(pairs_view(entries@) + Seq::<(Seq<char>, Seq<char>)>::empty() =~= pairs_view(
            entries@,
        ));
    }
    entries
}

/// The value of `key` among `entries`: that of its last entry.
pub fn env_value<'a>(entries: &'a Vec<(String, String)>, key: &str) -> (r: Option<&'a str>)
    ensures
        match r {
            Some(value) => exists|i: int|
                0 <= i < entries.len() && (#[trigger] entries@[i]).0@ == key@ && entries@[i].1@
                    == value@ && forall|j: int| i < j < entries.len() ==> entries@[j].0@ != key@,
            None => forall|j: int| 0 <= j < entries.len() ==> (#[trigger] entries@[j]).0@ != key@,
        },
{
    let mut i = entries.len();
    while i > 0
        invariant
            i <= entries.len(),
            forall|j: int| i <= j < entries.len() ==> (#[trigger] entries@[j]).0@ != key@,
        decreases i,
    {
        i -= 1;
        if crate::text::same_text(entries[i].0.as_str(), key) {
            return Some(entries[i].1.as_str());
        }
    }
    None
}

} // verus!
