//! Reading a remote locator and the answer of a remote ref query.

use crate::text::{
    all_whitespace, chars_of, cut_before, has_no_margin, is_whitespace, lemma_segments_run,
    lemma_segments_trailing, matches_at, occurs_at, segments, segments_are_runs,
    segments_of_appended, segments_of_separated, strip_suffix, text_before, text_before_first,
    trim, trim_end, trim_end_drops_whitespace, trimmed, trimmed_of_padded,
};
use vstd::prelude::*;
use vstd::string::*;

verus! {

/// The owner and the repository name that a remote locator stands for.
///
/// The locator is cut at every `/`. Its last two non-empty segments are the
/// owner and the repository; the repository segment has to end in `.git`,
/// which is cut off. A locator with fewer than two such segments, or whose
/// last one does not end in `.git`, stands for nothing.
pub open spec fn repo_info(url: Seq<char>) -> Option<(Seq<char>, Seq<char>)> {
    let segs = segments(url, '/');
    if segs.len() < 2 {
        None
    } else {
        match strip_suffix(segs.last(), ".git"@) {
            Some(name) => Some((segs[segs.len() - 2], name)),
            None => None,
        }
    }
}

/// The version token in the output of a remote ref query: the text before
/// the first `refs`, without the white space around it.
pub open spec fn version_token(output: Seq<char>) -> Seq<char> {
    trimmed(text_before(trimmed(output), "refs"@))
}

/// The owner that a locator resolves to is not empty, and neither the owner
/// nor the repository name holds a `/`.
pub proof fn resolved_names_hold_no_slash(url: Seq<char>)
    requires
        repo_info(url) is Some,
    ensures
        repo_info(url)->Some_0.0.len() > 0,
        !repo_info(url)->Some_0.0.contains('/'),
        !repo_info(url)->Some_0.1.contains('/'),
{
    segments_are_runs(url, '/');
    let segs = segments(url, '/');
    let last = segs[segs.len() - 1];
    let owner = segs[segs.len() - 2];
    let name = repo_info(url)->Some_0.1;
    assert(owner.len() > 0 && !owner.contains('/'));
    assert(!last.contains('/'));
    if name.contains('/') {
        let k = choose|k: int| 0 <= k < name.len() && name[k] == '/';
        assert(last[k] == '/');
        assert(last.contains('/'));
    }
}

/// A locator without a `/` resolves to nothing.
pub proof fn locator_without_slash_is_unresolved(url: Seq<char>)
    requires
        !url.contains('/'),
    ensures
        repo_info(url) is None,
{
    if url.len() > 0 {
        assert forall|j: int| 0 <= j < url.len() implies url[j] != '/' by {
            assert(url.contains(url[j]));
        }
        lemma_segments_run(url, '/', 0);
        assert(url.take(0) =~= Seq::<char>::empty());
    }
}

/// A locator that ends in an owner, a `/`, a repository name and `.git`
/// resolves to that owner and that name, whatever stands before the owner up
/// to a `/`.
pub proof fn locator_resolves(before: Seq<char>, owner: Seq<char>, name: Seq<char>)
    requires
        before.len() == 0 || before.last() == '/',
        owner.len() > 0,
        !owner.contains('/'),
        !name.contains('/'),
    ensures
        repo_info(before + owner + seq!['/'] + name + ".git"@) == Some((owner, name)),
{
    reveal_strlit(".git");
    let last = name + ".git"@;
    assert(!last.contains('/')) by {
        if last.contains('/') {
            let k = choose|k: int| 0 <= k < last.len() && last[k] == '/';
            if k < name.len() {
                assert(name[k] == '/');
                assert(name.contains('/'));
            }
        }
    }
    let head = before + owner;
    segments_of_appended(before, owner, '/');
    segments_of_separated(head, '/');
    let mid = head + seq!['/'];
    segments_of_appended(mid, last, '/');
    assert(mid + last =~= before + owner + seq!['/'] + name + ".git"@);
    let segs = segments(mid + last, '/');
    assert(segs == segments(before, '/').push(owner).push(last));
    assert(segs.last() == last);
    assert(segs[segs.len() - 2] == owner);
    assert(last.subrange(last.len() - 4, last.len() as int) =~= ".git"@);
    assert(last.take(last.len() - 4) =~= name);
}

/// The answer to a remote ref query that holds a version, white space and
/// then the ref path gives that version, whatever white space stands before
/// the version. The version is taken to be free of white space at both
/// ends, and `refs` must not occur before the ref path.
pub proof fn version_token_of_answer(
    lead: Seq<char>,
    version: Seq<char>,
    gap: Seq<char>,
    tail: Seq<char>,
)
    requires
        all_whitespace(lead),
        all_whitespace(gap),
        has_no_margin(version),
        forall|j: int|
            0 <= j < version.len() + gap.len() ==> !occurs_at(version + gap + "refs"@, "refs"@, j),
    ensures
        version_token(lead + version + gap + "refs"@ + tail) == version,
{
    reveal_strlit("refs");
    let pat = "refs"@;
    let output = lead + version + gap + pat + tail;
    trim_end_drops_whitespace(tail);
    let kept = trim_end(tail);
    let dropped = tail.skip(kept.len() as int);
    assert(tail =~= kept + dropped);
    assert(!is_whitespace(pat[0]) && !is_whitespace(pat[3]));
    let none = Seq::<char>::empty();
    if version.len() == 0 {
        let core = pat + kept;
        let margin = lead + gap;
        assert(all_whitespace(margin)) by {
            assert forall|i: int| 0 <= i < margin.len() implies is_whitespace(
                #[trigger] margin[i],
            ) by {
                if i < lead.len() {
                    assert(margin[i] == lead[i]);
                } else {
                    assert(margin[i] == gap[i - lead.len()]);
                }
            }
        }
        assert(core[0] == pat[0]);
        assert(core.last() == if kept.len() > 0 {
            kept.last()
        } else {
            pat[3]
        });
        trimmed_of_padded(margin, core, dropped);
        assert(output =~= margin + core + dropped);
        assert(core.subrange(0, 4) =~= pat);
        assert(occurs_at(core, pat, 0));
        assert(text_before(core, pat) == none);
        assert(trimmed(none) == none);
        assert(version =~= none);
    } else {
        let found = version + gap;
        let core = found + pat + kept;
        assert(core[0] == version[0]);
        assert(core.last() == if kept.len() > 0 {
            kept.last()
        } else {
            pat[3]
        });
        trimmed_of_padded(lead, core, dropped);
        assert(output =~= lead + core + dropped);
        assert forall|j: int| 0 <= j < found.len() implies !occurs_at(core, pat, j) by {
            assert(!occurs_at(found + pat, pat, j));
            assert(core.subrange(j, j + 4) =~= (found + pat).subrange(j, j + 4));
        }
        text_before_first(found, pat, kept);
        trimmed_of_padded(none, version, gap);
        assert(none + version + gap =~= found);
    }
}

/// Resolves a remote locator to its owner and repository name.
pub fn extract_repo_info(url: &str) -> (r: Option<(&str, &str)>)
    ensures
        match r {
            Some((owner, name)) => repo_info(url@) == Some((owner@, name@)),
            None => repo_info(url@) is None,
        },
{
    let v = chars_of(url);
    let n = v.len();
    // [c, e) is the last segment
    let mut e: usize = n;
    while e > 0 && v[e - 1] == '/'
        invariant
            e <= n,
            n == v.len(),
            forall|j: int| e <= j < n ==> v@[j] == '/',
        decreases e,
    {
        e -= 1;
    }
    proof {
        lemma_segments_trailing(v@, '/', e as int);
    }
    if e == 0 {
        assert(v@.take(0) =~= Seq::<char>::empty());
        return None;
    }
    let mut c: usize = e;
    while c > 0 && v[c - 1] != '/'
        invariant
            c <= e <= n,
            n == v.len(),
            forall|j: int| c <= j < e ==> v@[j] != '/',
        decreases c,
    {
        c -= 1;
    }
    // [a, b) is the segment before it
    let mut b: usize = c;
    while b > 0 && v[b - 1] == '/'
        invariant
            b <= c,
            c <= n,
            n == v.len(),
            forall|j: int| b <= j < c ==> v@[j] == '/',
        decreases b,
    {
        b -= 1;
    }
    let ghost head = v@.take(e as int);
    let ghost last = v@.subrange(c as int, e as int);
    proof {
        lemma_segments_run(head, '/', c as int);
        assert(head.take(c as int) =~= v@.take(c as int));
        assert(head.subrange(c as int, e as int) =~= last);
        lemma_segments_trailing(v@.take(c as int), '/', b as int);
        assert(v@.take(c as int).take(b as int) =~= v@.take(b as int));
        assert(segments(v@, '/') == segments(v@.take(b as int), '/').push(last));
    }
    if b == 0 {
        assert(v@.take(0) =~= Seq::<char>::empty());
        return None;
    }
    let mut a: usize = b;
    while a > 0 && v[a - 1] != '/'
        invariant
            a <= b <= n,
            n == v.len(),
            forall|j: int| a <= j < b ==> v@[j] != '/',
        decreases a,
    {
        a -= 1;
    }
    let ghost owner = v@.subrange(a as int, b as int);
    proof {
        let mid = v@.take(b as int);
        lemma_segments_run(mid, '/', a as int);
        assert(mid.subrange(a as int, b as int) =~= owner);
        let segs = segments(v@, '/');
        assert(segs.len() >= 2);
        assert(segs.last() == last);
        assert(segs[segs.len() - 2] == owner);
    }
    let suffix = chars_of(".git");
    let m = suffix.len();
    if e - c < m {
        return None;
    }
    let hit = matches_at(&v, &suffix, e - m);
    proof {
        assert(last.subrange(last.len() - m, last.len() - m + m) =~= v@.subrange(e - m, e - m + m));
    }
    if hit {
        let owner_text = url.substring_char(a, b);
        let name_text = url.substring_char(c, e - m);
        assert(last.take(last.len() - m) =~= v@.subrange(c as int, e - m));
        Some((owner_text, name_text))
    } else {
        None
    }
}

/// Reads the version token out of the output of a remote ref query.
pub fn read_version_token(output: &str) -> (r: &str)
    ensures
        r@ == version_token(output@),
{
    trim(cut_before(trim(output), "refs"))
}

} // verus!
