//! Text primitives shared by the rest of the library.
//!
//! Every string is modelled by its sequence of characters. The functions here
//! find positions in that sequence and cut slices out of the text they were given.

use vstd::prelude::*;
use vstd::string::*;

verus! {

/// Whether `c` has the Unicode property `White_Space`.
pub open spec fn is_whitespace(c: char) -> bool {
    let n = c as u32;
    ||| 0x09 <= n <= 0x0D
    ||| n == 0x20
    ||| n == 0x85
    ||| n == 0xA0
    ||| n == 0x1680
    ||| 0x2000 <= n <= 0x200A
    ||| n == 0x2028
    ||| n == 0x2029
    ||| n == 0x202F
    ||| n == 0x205F
    ||| n == 0x3000
}

/// `s` without its leading white space.
pub open spec fn trim_start(s: Seq<char>) -> Seq<char>
    decreases s.len(),
{
    if s.len() > 0 && is_whitespace(s[0]) {
        trim_start(s.drop_first())
    } else {
        s
    }
}

/// `s` without its trailing white space.
pub open spec fn trim_end(s: Seq<char>) -> Seq<char>
    decreases s.len(),
{
    if s.len() > 0 && is_whitespace(s.last()) {
        trim_end(s.drop_last())
    } else {
        s
    }
}

/// `s` without leading and trailing white space.
pub open spec fn trimmed(s: Seq<char>) -> Seq<char> {
    trim_end(trim_start(s))
}

/// Skipping `k` leading white-space characters does not change what
/// `trim_start` yields.
pub proof fn lemma_trim_start_skip(s: Seq<char>, k: int)
    requires
        0 <= k <= s.len(),
        forall|i: int| 0 <= i < k ==> is_whitespace(#[trigger] s[i]),
    ensures
        trim_start(s) == trim_start(s.subrange(k, s.len() as int)),
    decreases k,
{
    if k == 0 {
        assert(s.subrange(0, s.len() as int) =~= s);
    } else {
        let t = s.drop_first();
        assert forall|i: int| 0 <= i < k - 1 implies is_whitespace(#[trigger] t[i]) by {
            assert(t[i] == s[i + 1]);
        }
        lemma_trim_start_skip(t, k - 1);
        assert(t.subrange(k - 1, t.len() as int) =~= s.subrange(k, s.len() as int));
    }
}

/// Dropping trailing white space down to length `k` does not change what
/// `trim_end` yields.
pub proof fn lemma_trim_end_skip(s: Seq<char>, k: int)
    requires
        0 <= k <= s.len(),
        forall|i: int| k <= i < s.len() ==> is_whitespace(#[trigger] s[i]),
    ensures
        trim_end(s) == trim_end(s.subrange(0, k)),
    decreases s.len() - k,
{
    if k == s.len() {
        assert(s.subrange(0, k) =~= s);
    } else {
        let t = s.drop_last();
        lemma_trim_end_skip(t, k);
        assert(t.subrange(0, k) =~= s.subrange(0, k));
    }
}

/// Whether `pat` stands in `s` at position `i`.
pub open spec fn occurs_at(s: Seq<char>, pat: Seq<char>, i: int) -> bool {
    &&& 0 <= i
    &&& i + pat.len() <= s.len()
    &&& s.subrange(i, i + pat.len()) == pat
}

/// The part of `s` before the first occurrence of `pat`, or all of `s` where
/// `pat` does not occur.
pub open spec fn text_before(s: Seq<char>, pat: Seq<char>) -> Seq<char>
    decreases s.len(),
{
    if s.len() == 0 || occurs_at(s, pat, 0) {
        Seq::empty()
    } else {
        seq![s[0]] + text_before(s.drop_first(), pat)
    }
}

/// The part of `s` after the last occurrence of the character `c`, or all of
/// `s` where `c` does not occur.
pub open spec fn after_last(s: Seq<char>, c: char) -> Seq<char>
    decreases s.len(),
{
    if s.len() == 0 || s.last() == c {
        Seq::empty()
    } else {
        after_last(s.drop_last(), c).push(s.last())
    }
}

/// `s` without the ending `suffix`, where it ends so.
pub open spec fn strip_suffix(s: Seq<char>, suffix: Seq<char>) -> Option<Seq<char>> {
    if occurs_at(s, suffix, s.len() - suffix.len()) {
        Some(s.take(s.len() - suffix.len()))
    } else {
        None
    }
}

/// The maximal runs of characters other than `sep` in `s`, from left to
/// right. No segment is empty.
pub open spec fn segments(s: Seq<char>, sep: char) -> Seq<Seq<char>>
    decreases s.len(),
{
    if s.len() == 0 {
        Seq::empty()
    } else {
        let before = segments(s.drop_last(), sep);
        if s.last() == sep {
            before
        } else if s.len() >= 2 && s[s.len() - 2] != sep {
            before.update(before.len() - 1, before.last().push(s.last()))
        } else {
            before.push(seq![s.last()])
        }
    }
}

/// Where `k` is the first position at which `pat` occurs in `s`, or the end
/// of `s` when it occurs nowhere, `text_before` is the first `k` characters.
pub proof fn lemma_text_before(s: Seq<char>, pat: Seq<char>, k: int)
    requires
        0 <= k <= s.len(),
        forall|j: int| 0 <= j < k ==> !occurs_at(s, pat, j),
        k == s.len() || occurs_at(s, pat, k),
    ensures
        text_before(s, pat) == s.take(k),
    decreases k,
{
    if k == 0 {
        assert(s.take(0) =~= Seq::<char>::empty());
    } else {
        let t = s.drop_first();
        assert(!occurs_at(s, pat, 0));
        assert forall|j: int| 0 <= j < k - 1 implies !occurs_at(t, pat, j) by {
            assert(!occurs_at(s, pat, j + 1));
            if j + pat.len() <= t.len() {
                assert(t.subrange(j, j + pat.len()) =~= s.subrange(j + 1, j + 1 + pat.len()));
            }
        }
        if k < s.len() {
            assert(t.subrange(k - 1, k - 1 + pat.len()) =~= s.subrange(k, k + pat.len()));
        }
        lemma_text_before(t, pat, k - 1);
        assert(seq![s[0]] + t.take(k - 1) =~= s.take(k));
    }
}

/// Where no character from position `k` on is `c`, and `c` stands just before
/// `k` unless `k` is 0, `after_last` is what starts at `k`.
pub proof fn lemma_after_last(s: Seq<char>, c: char, k: int)
    requires
        0 <= k <= s.len(),
        forall|j: int| k <= j < s.len() ==> s[j] != c,
        k == 0 || s[k - 1] == c,
    ensures
        after_last(s, c) == s.subrange(k, s.len() as int),
    decreases s.len() - k,
{
    if k == s.len() {
        assert(s.subrange(k, s.len() as int) =~= Seq::<char>::empty());
    } else {
        let t = s.drop_last();
        lemma_after_last(t, c, k);
        assert(t.subrange(k, t.len() as int).push(s.last()) =~= s.subrange(k, s.len() as int));
    }
}

/// Separators at the end of `s` add no segment.
pub proof fn lemma_segments_trailing(s: Seq<char>, sep: char, e: int)
    requires
        0 <= e <= s.len(),
        forall|j: int| e <= j < s.len() ==> s[j] == sep,
    ensures
        segments(s, sep) == segments(s.take(e), sep),
    decreases s.len() - e,
{
    if e == s.len() {
        assert(s.take(e) =~= s);
    } else {
        let t = s.drop_last();
        lemma_segments_trailing(t, sep, e);
        assert(t.take(e) =~= s.take(e));
    }
}

/// A run of characters other than `sep` that starts `s` or follows a
/// separator, and ends `s`, is the last segment of `s`.
pub proof fn lemma_segments_run(s: Seq<char>, sep: char, c: int)
    requires
        0 <= c < s.len(),
        forall|j: int| c <= j < s.len() ==> s[j] != sep,
        c == 0 || s[c - 1] == sep,
    ensures
        segments(s, sep) == segments(s.take(c), sep).push(s.subrange(c, s.len() as int)),
    decreases s.len() - c,
{
    let t = s.drop_last();
    if c == s.len() - 1 {
        assert(t =~= s.take(c));
        assert(seq![s.last()] =~= s.subrange(c, s.len() as int));
    } else {
        lemma_segments_run(t, sep, c);
        assert(t.take(c) =~= s.take(c));
        let before = segments(t, sep);
        assert(before.last() == t.subrange(c, t.len() as int));
        assert(t.subrange(c, t.len() as int).push(s.last()) =~= s.subrange(c, s.len() as int));
        assert(before.update(before.len() - 1, before.last().push(s.last())) =~= segments(
            s.take(c),
            sep,
        ).push(s.subrange(c, s.len() as int)));
    }
}

/// Every segment holds at least one character and no separator, and a
/// text that does not end in a separator ends in its last segment.
pub proof fn segments_are_runs(s: Seq<char>, sep: char)
    ensures
        forall|i: int|
            0 <= i < segments(s, sep).len() ==> (#[trigger] segments(s, sep)[i]).len() > 0
                && !segments(s, sep)[i].contains(sep),
        s.len() > 0 && s.last() != sep ==> segments(s, sep).len() > 0,
        s.len() == 0 ==> segments(s, sep).len() == 0,
    decreases s.len(),
{
    if s.len() > 0 {
        let t = s.drop_last();
        segments_are_runs(t, sep);
        let before = segments(t, sep);
        if s.last() != sep {
            if s.len() >= 2 && s[s.len() - 2] != sep {
                assert(t.last() == s[s.len() - 2]);
                let grown = before.last().push(s.last());
                assert(!grown.contains(sep)) by {
                    if grown.contains(sep) {
                        let k = choose|k: int| 0 <= k < grown.len() && grown[k] == sep;
                        assert(before.last()[k] == sep);
                        assert(before.last().contains(sep));
                    }
                }
            } else {
                let single = seq![s.last()];
                assert(!single.contains(sep)) by {
                    if single.contains(sep) {
                        let k = choose|k: int| 0 <= k < single.len() && single[k] == sep;
                        assert(single[k] == s.last());
                    }
                }
            }
        }
    }
}

/// Whether every character of `s` is white space.
pub open spec fn all_whitespace(s: Seq<char>) -> bool {
    forall|i: int| 0 <= i < s.len() ==> is_whitespace(#[trigger] s[i])
}

/// Whether `s` neither starts nor ends with white space.
pub open spec fn has_no_margin(s: Seq<char>) -> bool {
    s.len() > 0 ==> !is_whitespace(s[0]) && !is_whitespace(s.last())
}

/// `trim_end` keeps a beginning of the text that does not end in white
/// space, and drops white space only.
pub proof fn trim_end_drops_whitespace(s: Seq<char>)
    ensures
        trim_end(s).len() <= s.len(),
        trim_end(s) == s.take(trim_end(s).len() as int),
        all_whitespace(s.skip(trim_end(s).len() as int)),
        trim_end(s).len() > 0 ==> !is_whitespace(trim_end(s).last()),
    decreases s.len(),
{
    if s.len() > 0 && is_whitespace(s.last()) {
        let t = s.drop_last();
        trim_end_drops_whitespace(t);
        let k = trim_end(t).len() as int;
        assert(t.take(k) =~= s.take(k));
        assert forall|i: int| 0 <= i < s.skip(k).len() implies is_whitespace(
            #[trigger] s.skip(k)[i],
        ) by {
            if i < t.skip(k).len() {
                assert(t.skip(k)[i] == s.skip(k)[i]);
            }
        }
    } else {
        assert(s.take(s.len() as int) =~= s);
    }
}

/// Trimming takes the white space around a text away and leaves the text.
pub proof fn trimmed_of_padded(lead: Seq<char>, core: Seq<char>, trail: Seq<char>)
    requires
        all_whitespace(lead),
        all_whitespace(trail),
        has_no_margin(core),
    ensures
        trimmed(lead + core + trail) == core,
{
    let s = lead + core + trail;
    let rest = core + trail;
    assert forall|i: int| 0 <= i < lead.len() implies is_whitespace(#[trigger] s[i]) by {
        assert(s[i] == lead[i]);
    }
    lemma_trim_start_skip(s, lead.len() as int);
    assert(s.subrange(lead.len() as int, s.len() as int) =~= rest);
    if core.len() == 0 {
        assert(rest =~= trail);
        lemma_trim_start_skip(trail, trail.len() as int);
        assert(trail.subrange(trail.len() as int, trail.len() as int) =~= Seq::<char>::empty());
        assert(trim_start(Seq::<char>::empty()) == Seq::<char>::empty());
        assert(trim_end(Seq::<char>::empty()) == Seq::<char>::empty());
        assert(core =~= Seq::<char>::empty());
    } else {
        assert(rest[0] == core[0]);
        assert(trim_start(rest) == rest);
        assert forall|i: int| core.len() <= i < rest.len() implies is_whitespace(
            #[trigger] rest[i],
        ) by {
            assert(rest[i] == trail[i - core.len()]);
        }
        lemma_trim_end_skip(rest, core.len() as int);
        assert(rest.subrange(0, core.len() as int) =~= core);
        assert(trim_end(core) == core);
    }
}

/// What stands before a pattern is cut out whole, where the pattern does not
/// occur earlier.
pub proof fn text_before_first(a: Seq<char>, pat: Seq<char>, b: Seq<char>)
    requires
        forall|j: int| 0 <= j < a.len() ==> !occurs_at(a + pat + b, pat, j),
    ensures
        text_before(a + pat + b, pat) == a,
{
    let s = a + pat + b;
    assert(s.subrange(a.len() as int, a.len() as int + pat.len()) =~= pat);
    lemma_text_before(s, pat, a.len() as int);
    assert(s.take(a.len() as int) =~= a);
}

/// A text in which the pattern does not occur is kept whole.
pub proof fn text_before_absent(s: Seq<char>, pat: Seq<char>)
    requires
        forall|j: int| 0 <= j <= s.len() ==> !occurs_at(s, pat, j),
    ensures
        text_before(s, pat) == s,
{
    lemma_text_before(s, pat, s.len() as int);
    assert(s.take(s.len() as int) =~= s);
}

/// What follows the last `c` is cut out whole.
pub proof fn after_last_of(a: Seq<char>, c: char, b: Seq<char>)
    requires
        !b.contains(c),
    ensures
        after_last(a + seq![c] + b, c) == b,
        after_last(b, c) == b,
{
    let s = a + seq![c] + b;
    let k = a.len() as int + 1;
    assert forall|j: int| k <= j < s.len() implies s[j] != c by {
        assert(s[j] == b[j - k]);
        assert(b.contains(b[j - k]));
    }
    assert(s[k - 1] == c);
    lemma_after_last(s, c, k);
    assert(s.subrange(k, s.len() as int) =~= b);
    assert forall|j: int| 0 <= j < b.len() implies b[j] != c by {
        assert(b.contains(b[j]));
    }
    lemma_after_last(b, c, 0);
    assert(b.subrange(0, b.len() as int) =~= b);
}

/// A run of characters other than the separator, put behind a text that is
/// empty or ends in a separator, is one more segment.
pub proof fn segments_of_appended(p: Seq<char>, run: Seq<char>, sep: char)
    requires
        p.len() == 0 || p.last() == sep,
        run.len() > 0,
        !run.contains(sep),
    ensures
        segments(p + run, sep) == segments(p, sep).push(run),
{
    let s = p + run;
    assert forall|j: int| p.len() <= j < s.len() implies s[j] != sep by {
        assert(s[j] == run[j - p.len()]);
        assert(run.contains(run[j - p.len()]));
    }
    if p.len() > 0 {
        assert(s[p.len() - 1] == p.last());
    }
    lemma_segments_run(s, sep, p.len() as int);
    assert(s.take(p.len() as int) =~= p);
    assert(s.subrange(p.len() as int, s.len() as int) =~= run);
}

/// A separator put behind a text adds no segment.
pub proof fn segments_of_separated(p: Seq<char>, sep: char)
    ensures
        segments(p + seq![sep], sep) == segments(p, sep),
{
    let t = p + seq![sep];
    assert(t.drop_last() =~= p);
}

/// The characters of a string slice, in order.
pub fn chars_of(s: &str) -> (v: Vec<char>)
    ensures
        v@ == s@,
{
    let mut v: Vec<char> = Vec::new();
    for c in it: s.chars()
        invariant
            v@ == it.seq().take(it.index() as int),
            it.seq() == s@,
    {
        v.push(c);
    }
    v
}

/// Executable form of [`is_whitespace`].
pub fn is_space(c: char) -> (b: bool)
    ensures
        b == is_whitespace(c),
{
    let n: u32 = c as u32;
    (0x09 <= n && n <= 0x0D) || n == 0x20 || n == 0x85 || n == 0xA0 || n == 0x1680 || (0x2000 <= n
        && n <= 0x200A) || n == 0x2028 || n == 0x2029 || n == 0x202F || n == 0x205F || n == 0x3000
}

/// Cuts leading and trailing white space off `s`.
pub fn trim(s: &str) -> (r: &str)
    ensures
        r@ == trimmed(s@),
{
    let v = chars_of(s);
    let n = v.len();
    let mut a: usize = 0;
    while a < n && is_space(v[a])
        invariant
            a <= n,
            n == v.len(),
            forall|i: int| 0 <= i < a ==> is_whitespace(#[trigger] v@[i]),
        decreases n - a,
    {
        a += 1;
    }
    let mut b: usize = n;
    while b > a && is_space(v[b - 1])
        invariant
            a <= b <= n,
            n == v.len(),
            forall|i: int| b <= i < n ==> is_whitespace(#[trigger] v@[i]),
        decreases b,
    {
        b -= 1;
    }
    proof {
        let rest = v@.subrange(a as int, n as int);
        lemma_trim_start_skip(v@, a as int);
        if a < n {
            assert(rest[0] == v@[a as int]);
        }
        assert(trim_start(rest) == rest);
        assert forall|i: int| b - a <= i < rest.len() implies is_whitespace(#[trigger] rest[i]) by {
            assert(rest[i] == v@[i + a]);
        }
        lemma_trim_end_skip(rest, b - a);
        let mid = rest.subrange(0, b - a);
        assert(mid =~= v@.subrange(a as int, b as int));
        if a < b {
            assert(mid.last() == v@[b - 1]);
        }
        assert(trim_end(mid) == mid);
    }
    s.substring_char(a, b)
}

/// Whether `pat` stands in `hay` at position `i`.
pub fn matches_at(hay: &Vec<char>, pat: &Vec<char>, i: usize) -> (b: bool)
    ensures
        b == occurs_at(hay@, pat@, i as int),
{
    let n = hay.len();
    let m = pat.len();
    if i > n || m > n - i {
        return false;
    }
    let mut j: usize = 0;
    while j < m
        invariant
            j <= m,
            m == pat.len(),
            n == hay.len(),
            i + m <= n,
            forall|k: int| 0 <= k < j ==> hay@[i + k] == pat@[k],
        decreases m - j,
    {
        if hay[i + j] != pat[j] {
            proof {
                let sub = hay@.subrange(i as int, i + m);
                assert(sub[j as int] == hay@[i + j]);
            }
            return false;
        }
        j += 1;
    }
    assert(hay@.subrange(i as int, i + m) =~= pat@);
    true
}

/// The first position at which `pat` stands in `hay`.
pub fn find(hay: &Vec<char>, pat: &Vec<char>) -> (r: Option<usize>)
    ensures
        match r {
            Some(k) => occurs_at(hay@, pat@, k as int) && forall|j: int|
                0 <= j < k ==> !occurs_at(hay@, pat@, j),
            None => forall|j: int| !occurs_at(hay@, pat@, j),
        },
{
    let n = hay.len();
    let mut i: usize = 0;
    while i < n
        invariant
            i <= n,
            n == hay.len(),
            forall|j: int| 0 <= j < i ==> !occurs_at(hay@, pat@, j),
        decreases n - i,
    {
        if matches_at(hay, pat, i) {
            return Some(i);
        }
        i += 1;
    }
    if matches_at(hay, pat, n) {
        Some(n)
    } else {
        None
    }
}

/// Cuts `s` before the first occurrence of `pat`.
pub fn cut_before<'a>(s: &'a str, pat: &str) -> (r: &'a str)
    ensures
        r@ == text_before(s@, pat@),
{
    let hay = chars_of(s);
    let needle = chars_of(pat);
    let k = match find(&hay, &needle) {
        Some(k) => k,
        None => hay.len(),
    };
    proof {
        lemma_text_before(s@, pat@, k as int);
    }
    s.substring_char(0, k)
}

/// Cuts `s` after the last occurrence of `c`.
pub fn cut_after_last(s: &str, c: char) -> (r: &str)
    ensures
        r@ == after_last(s@, c),
{
    let v = chars_of(s);
    let n = v.len();
    let mut k: usize = n;
    while k > 0 && v[k - 1] != c
        invariant
            k <= n,
            n == v.len(),
            forall|j: int| k <= j < n ==> v@[j] != c,
        decreases k,
    {
        k -= 1;
    }
    proof {
        lemma_after_last(s@, c, k as int);
    }
    s.substring_char(k, n)
}

/// Whether `c` occurs in `s`.
pub fn has_char(s: &str, c: char) -> (b: bool)
    ensures
        b == s@.contains(c),
{
    let v = chars_of(s);
    let n = v.len();
    let mut i: usize = 0;
    while i < n
        invariant
            i <= n,
            n == v.len(),
            v@ == s@,
            forall|j: int| 0 <= j < i ==> v@[j] != c,
        decreases n - i,
    {
        if v[i] == c {
            assert(s@[i as int] == c);
            return true;
        }
        i += 1;
    }
    false
}

/// Cuts the ending `suffix` off `s`, where `s` ends so.
pub fn cut_suffix<'a>(s: &'a str, suffix: &str) -> (r: Option<&'a str>)
    ensures
        match r {
            Some(t) => strip_suffix(s@, suffix@) == Some(t@),
            None => strip_suffix(s@, suffix@) is None,
        },
{
    let v = chars_of(s);
    let p = chars_of(suffix);
    if p.len() > v.len() {
        return None;
    }
    let k = v.len() - p.len();
    if matches_at(&v, &p, k) {
        Some(s.substring_char(0, k))
    } else {
        None
    }
}

/// Whether two string slices hold the same characters.
pub fn same_text(a: &str, b: &str) -> (r: bool)
    ensures
        r == (a@ == b@),
{
    let x = String::from_str(a);
    let y = String::from_str(b);
    x == y
}

} // verus!
