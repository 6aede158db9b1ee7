//! String machinery shared by the matchers and the archive-format table:
//! final path segments, substring search, and case-insensitive suffix tests.

use vstd::prelude::*;

verus! {

/// `s` with its trailing `/` characters removed.
pub open spec fn trim_slashes(s: Seq<char>) -> Seq<char>
    decreases s.len(),
{
    if s.len() > 0 && s.last() == '/' {
        trim_slashes(s.drop_last())
    } else {
        s
    }
}

/// The characters of `s` after its last `/`; `s` itself when it holds no `/`,
/// empty when it ends with `/`.
pub open spec fn last_segment_of(s: Seq<char>) -> Seq<char>
    decreases s.len(),
{
    if s.len() == 0 {
        s
    } else if s.last() == '/' {
        Seq::empty()
    } else {
        last_segment_of(s.drop_last()).push(s.last())
    }
}

/// The final path segment of `s`: trailing `/` characters are disregarded,
/// as a file name lookup disregards them, and what follows the last
/// remaining `/` is the segment.
pub open spec fn final_segment(s: Seq<char>) -> Seq<char> {
    last_segment_of(trim_slashes(s))
}

/// `n` occurs in `h` starting at position `i`.
pub open spec fn matches_at(h: Seq<char>, n: Seq<char>, i: int) -> bool {
    0 <= i && i + n.len() <= h.len() && h.subrange(i, i + n.len()) == n
}

/// `n` occurs somewhere in `h`.
pub open spec fn has_substring(h: Seq<char>, n: Seq<char>) -> bool {
    exists|i: int| matches_at(h, n, i)
}

/// `s` ends with `sfx`.
pub open spec fn ends_with(s: Seq<char>, sfx: Seq<char>) -> bool {
    sfx.len() <= s.len() && s.subrange(s.len() - sfx.len(), s.len() as int) == sfx
}

/// `s` starts with `pre`.
pub open spec fn starts_with(s: Seq<char>, pre: Seq<char>) -> bool {
    pre.len() <= s.len() && s.subrange(0, pre.len() as int) == pre
}

/// ASCII lower-casing of one character; other characters stay as they are.
pub open spec fn lower_char(c: char) -> char {
    if 'A' <= c && c <= 'Z' {
        (((c as u8) + 32) as u8) as char
    } else {
        c
    }
}

/// ASCII lower-casing of a character sequence.
pub open spec fn lower(s: Seq<char>) -> Seq<char> {
    s.map_values(|c: char| lower_char(c))
}

/// `last_segment_of(s)` is the suffix of `s` that starts at the position
/// right after the last `/`.
pub proof fn lemma_last_segment_is_suffix(s: Seq<char>, j: int)
    requires
        0 <= j <= s.len(),
        forall|k: int| j <= k < s.len() ==> s[k] != '/',
        j == 0 || s[j - 1] == '/',
    ensures
        last_segment_of(s) == s.subrange(j, s.len() as int),
    decreases s.len(),
{
    if s.len() == 0 {
        assert(last_segment_of(s) =~= s.subrange(j, s.len() as int));
    } else if s.last() == '/' {
        assert(j == s.len());
        assert(last_segment_of(s) =~= s.subrange(j, s.len() as int));
    } else {
        assert(j < s.len());
        let t = s.drop_last();
        lemma_last_segment_is_suffix(t, j);
        assert(last_segment_of(s) == last_segment_of(t).push(s.last()));
        assert(last_segment_of(s) =~= s.subrange(j, s.len() as int));
    }
}

/// `trim_slashes(s)` is the prefix of `s` that ends right before its
/// trailing run of `/` characters.
pub proof fn lemma_trim_slashes_is_prefix(s: Seq<char>, e: int)
    requires
        0 <= e <= s.len(),
        forall|k: int| e <= k < s.len() ==> s[k] == '/',
        e == 0 || s[e - 1] != '/',
    ensures
        trim_slashes(s) == s.subrange(0, e),
    decreases s.len(),
{
    if s.len() == 0 {
        assert(trim_slashes(s) =~= s.subrange(0, e));
    } else if s.last() == '/' {
        assert(e < s.len());
        let t = s.drop_last();
        lemma_trim_slashes_is_prefix(t, e);
        assert(t.subrange(0, e) =~= s.subrange(0, e));
    } else {
        assert(e == s.len());
        assert(trim_slashes(s) =~= s.subrange(0, e));
    }
}

/// An ASCII whitespace character; what trimming removes at a line's ends.
pub open spec fn is_space(c: char) -> bool {
    c == ' ' || c == '\t' || c == '\r' || c == '\n'
}

/// `s` with its leading whitespace removed.
pub open spec fn trim_start(s: Seq<char>) -> Seq<char>
    decreases s.len(),
{
    if s.len() > 0 && is_space(s[0]) {
        trim_start(s.subrange(1, s.len() as int))
    } else {
        s
    }
}

/// `s` with its trailing whitespace removed.
pub open spec fn trim_end(s: Seq<char>) -> Seq<char>
    decreases s.len(),
{
    if s.len() > 0 && is_space(s.last()) {
        trim_end(s.drop_last())
    } else {
        s
    }
}

/// `s` with whitespace removed at both ends.
pub open spec fn spec_trim(s: Seq<char>) -> Seq<char> {
    trim_end(trim_start(s))
}

/// `trim_start(s)` is the suffix of `s` after its leading whitespace run.
pub proof fn lemma_trim_start_is_suffix(s: Seq<char>, a: int)
    requires
        0 <= a <= s.len(),
        forall|k: int| 0 <= k < a ==> is_space(s[k]),
        a == s.len() || !is_space(s[a]),
    ensures
        trim_start(s) == s.subrange(a, s.len() as int),
    decreases s.len(),
{
    if a == 0 {
        if s.len() == 0 || !is_space(s[0]) {
            assert(trim_start(s) =~= s.subrange(0, s.len() as int));
        }
    } else {
        let t = s.subrange(1, s.len() as int);
        assert(forall|k: int| 0 <= k < a - 1 ==> t[k] == s[k + 1] && is_space(t[k]));
        lemma_trim_start_is_suffix(t, a - 1);
        assert(t.subrange(a - 1, t.len() as int) =~= s.subrange(a, s.len() as int));
    }
}

/// `trim_end(s)` is the prefix of `s` before its trailing whitespace run.
pub proof fn lemma_trim_end_is_prefix(s: Seq<char>, b: int)
    requires
        0 <= b <= s.len(),
        forall|k: int| b <= k < s.len() ==> is_space(s[k]),
        b == 0 || !is_space(s[b - 1]),
    ensures
        trim_end(s) == s.subrange(0, b),
    decreases s.len(),
{
    if b == s.len() {
        if s.len() == 0 || !is_space(s.last()) {
            assert(trim_end(s) =~= s.subrange(0, b));
        }
    } else {
        let t = s.drop_last();
        lemma_trim_end_is_prefix(t, b);
        assert(t.subrange(0, b) =~= s.subrange(0, b));
    }
}

/// Removes ASCII whitespace at both ends of `s`.
pub fn trim(s: &str) -> (r: String)
    ensures
        r@ == spec_trim(s@),
{
    let n = s.unicode_len();
    let mut a: usize = 0;
    while a < n && is_space_char(s.get_char(a))
        invariant
            n == s@.len(),
            0 <= a <= n,
            forall|k: int| 0 <= k < a ==> is_space(s@[k]),
        decreases n - a,
    {
        a = a + 1;
    }
    proof {
        lemma_trim_start_is_suffix(s@, a as int);
    }
    let ghost started = s@.subrange(a as int, n as int);
    let mut b: usize = n;
    while b > a && is_space_char(s.get_char(b - 1))
        invariant
            n == s@.len(),
            0 <= a <= b <= n,
            forall|k: int| b <= k < n ==> is_space(s@[k]),
        decreases b,
    {
        b = b - 1;
    }
    proof {
        assert(forall|k: int| b - a <= k < started.len() ==> started[k] == s@[k + a]);
        lemma_trim_end_is_prefix(started, b - a);
        assert(started.subrange(0, b - a) =~= s@.subrange(a as int, b as int));
    }
    s.substring_char(a, b).to_owned()
}

/// Whether `c` is ASCII whitespace.
fn is_space_char(c: char) -> (r: bool)
    ensures
        r == is_space(c),
{
    c == ' ' || c == '\t' || c == '\r' || c == '\n'
}

/// A name placed under a directory: the name alone when it is absolute or
/// the directory is empty, otherwise the directory, a `/` unless one is
/// already there, and the name.
pub open spec fn spec_join(dir: Seq<char>, name: Seq<char>) -> Seq<char> {
    if name.len() > 0 && name[0] == '/' {
        name
    } else if dir.len() == 0 {
        name
    } else if dir.last() == '/' {
        dir + name
    } else {
        dir + "/"@ + name
    }
}

/// Places `name` under `dir`.
pub fn join_path(dir: &str, name: &str) -> (r: String)
    ensures
        r@ == spec_join(dir@, name@),
{
    let nl = name.unicode_len();
    if nl > 0 && name.get_char(0) == '/' {
        return name.to_owned();
    }
    let dl = dir.unicode_len();
    if dl == 0 {
        return name.to_owned();
    }
    let mut acc = dir.to_owned();
    if dir.get_char(dl - 1) != '/' {
        acc.append("/");
    }
    acc.append(name);
    acc
}

/// The directory part of a path: trailing `/` runs are disregarded, the
/// final segment and the `/` run before it are removed; `/` when only the
/// root remains, empty when no directory part remains.
pub open spec fn spec_parent(s: Seq<char>) -> Seq<char> {
    let t = trim_slashes(s);
    let kept = t.subrange(0, t.len() - last_segment_of(t).len());
    if trim_slashes(kept).len() == 0 {
        if kept.len() > 0 {
            "/"@
        } else {
            Seq::<char>::empty()
        }
    } else {
        trim_slashes(kept)
    }
}

/// The directory part of `s`.
pub fn parent_dir(s: &str) -> (r: String)
    ensures
        r@ == spec_parent(s@),
{
    let n = s.unicode_len();
    let mut e: usize = n;
    while e > 0 && s.get_char(e - 1) == '/'
        invariant
            n == s@.len(),
            0 <= e <= n,
            forall|k: int| e <= k < n ==> s@[k] == '/',
        decreases e,
    {
        e = e - 1;
    }
    proof {
        lemma_trim_slashes_is_prefix(s@, e as int);
    }
    let ghost t = s@.subrange(0, e as int);
    let mut j: usize = 0;
    let mut i: usize = 0;
    while i < e
        invariant
            0 <= j <= i <= e <= n,
            n == s@.len(),
            forall|k: int| j <= k < i ==> s@[k] != '/',
            j == 0 || s@[j - 1] == '/',
        decreases e - i,
    {
        if s.get_char(i) == '/' {
            j = i + 1;
        }
        i = i + 1;
    }
    proof {
        assert(forall|k: int| j <= k < e ==> t[k] != '/');
        assert(j == 0 || t[j - 1] == '/');
        lemma_last_segment_is_suffix(t, j as int);
        assert(t.subrange(0, t.len() - last_segment_of(t).len()) =~= s@.subrange(0, j as int));
    }
    let ghost kept = s@.subrange(0, j as int);
    let mut j2: usize = j;
    while j2 > 0 && s.get_char(j2 - 1) == '/'
        invariant
            n == s@.len(),
            0 <= j2 <= j <= n,
            forall|k: int| j2 <= k < j ==> s@[k] == '/',
        decreases j2,
    {
        j2 = j2 - 1;
    }
    proof {
        assert(forall|k: int| j2 <= k < kept.len() ==> kept[k] == '/');
        lemma_trim_slashes_is_prefix(kept, j2 as int);
        assert(kept.subrange(0, j2 as int) =~= s@.subrange(0, j2 as int));
    }
    if j2 == 0 {
        if j > 0 {
            return "/".to_owned();
        }
        return String::new();
    }
    s.substring_char(0, j2).to_owned()
}

/// Compares two string slices character by character.
pub fn str_eq(a: &str, b: &str) -> (r: bool)
    ensures
        r == (a@ == b@),
{
    let al = a.unicode_len();
    let bl = b.unicode_len();
    if al != bl {
        assert(a@ != b@);
        return false;
    }
    let mut i: usize = 0;
    while i < al
        invariant
            al == a@.len(),
            al == b@.len(),
            0 <= i <= al,
            forall|k: int| 0 <= k < i ==> a@[k] == b@[k],
        decreases al - i,
    {
        if a.get_char(i) != b.get_char(i) {
            return false;
        }
        i = i + 1;
    }
    assert(a@ =~= b@);
    true
}

/// Whether the final segment of `p` equals `name`: trailing `/` characters
/// are passed over, the position right after the last remaining `/` is
/// found, and the suffix from there is compared.
pub fn final_segment_eq(p: &str, name: &str) -> (r: bool)
    ensures
        r == (final_segment(p@) == name@),
{
    let pl = p.unicode_len();
    let nl = name.unicode_len();
    let mut e: usize = pl;
    while e > 0 && p.get_char(e - 1) == '/'
        invariant
            pl == p@.len(),
            0 <= e <= pl,
            forall|k: int| e <= k < pl ==> p@[k] == '/',
        decreases e,
    {
        e = e - 1;
    }
    proof {
        lemma_trim_slashes_is_prefix(p@, e as int);
    }
    let ghost trimmed = p@.subrange(0, e as int);
    let mut j: usize = 0;
    let mut i: usize = 0;
    while i < e
        invariant
            0 <= j <= i <= e <= pl,
            pl == p@.len(),
            forall|k: int| j <= k < i ==> p@[k] != '/',
            j == 0 || p@[j - 1] == '/',
        decreases e - i,
    {
        if p.get_char(i) == '/' {
            j = i + 1;
        }
        i = i + 1;
    }
    proof {
        assert(forall|k: int| j <= k < e ==> trimmed[k] != '/');
        assert(j == 0 || trimmed[j - 1] == '/');
        lemma_last_segment_is_suffix(trimmed, j as int);
        assert(final_segment(p@) == trimmed.subrange(j as int, e as int));
    }
    if e - j != nl {
        assert(final_segment(p@).len() != name@.len());
        return false;
    }
    let mut k: usize = 0;
    while k < nl
        invariant
            pl == p@.len(),
            nl == name@.len(),
            0 <= j <= e <= pl,
            e - j == nl,
            trimmed == p@.subrange(0, e as int),
            final_segment(p@) == trimmed.subrange(j as int, e as int),
            0 <= k <= nl,
            forall|t: int| 0 <= t < k ==> p@[j + t] == name@[t],
        decreases nl - k,
    {
        if p.get_char(j + k) != name.get_char(k) {
            assert(final_segment(p@)[k as int] != name@[k as int]);
            return false;
        }
        k = k + 1;
    }
    assert(final_segment(p@) =~= name@);
    true
}

/// Whether `n` occurs in `h` as a contiguous run of characters.
pub fn contains_substring(h: &str, n: &str) -> (r: bool)
    ensures
        r == has_substring(h@, n@),
{
    let hl = h.unicode_len();
    let nl = n.unicode_len();
    if nl > hl {
        assert(!has_substring(h@, n@));
        return false;
    }
    if nl == 0 {
        assert(h@.subrange(0, 0) =~= n@);
        assert(matches_at(h@, n@, 0));
        return true;
    }
    let mut i: usize = 0;
    while i <= hl - nl
        invariant
            hl == h@.len(),
            nl == n@.len(),
            0 < nl <= hl,
            0 <= i <= hl - nl + 1,
            forall|x: int| 0 <= x < i ==> !matches_at(h@, n@, x),
        decreases hl - nl + 1 - i,
    {
        let mut k: usize = 0;
        let mut all: bool = true;
        while k < nl
            invariant
                hl == h@.len(),
                nl == n@.len(),
                0 <= i <= hl - nl,
                0 <= k <= nl,
                all ==> forall|t: int| 0 <= t < k ==> h@[i + t] == n@[t],
                !all ==> !matches_at(h@, n@, i as int),
            decreases nl - k,
        {
            if all && h.get_char(i + k) != n.get_char(k) {
                proof {
                    if matches_at(h@, n@, i as int) {
                        assert(h@.subrange(i as int, i + nl)[k as int] == n@[k as int]);
                    }
                }
                all = false;
            }
            k = k + 1;
        }
        if all {
            assert(h@.subrange(i as int, i + nl) =~= n@);
            assert(matches_at(h@, n@, i as int));
            return true;
        }
        i = i + 1;
    }
    proof {
        if has_substring(h@, n@) {
            let x = choose|x: int| matches_at(h@, n@, x);
            assert(0 <= x <= hl - nl);
            assert(!matches_at(h@, n@, x));
        }
    }
    false
}

/// Whether `s`, lower-cased ASCII-wise, ends with `sfx`.
pub fn ends_with_lower(s: &str, sfx: &str) -> (r: bool)
    ensures
        r == ends_with(lower(s@), sfx@),
{
    let sl = s.unicode_len();
    let fl = sfx.unicode_len();
    assert(lower(s@).len() == s@.len());
    if fl > sl {
        return false;
    }
    let base = sl - fl;
    let mut k: usize = 0;
    while k < fl
        invariant
            sl == s@.len(),
            fl == sfx@.len(),
            fl <= sl,
            base == sl - fl,
            0 <= k <= fl,
            lower(s@).len() == s@.len(),
            forall|t: int| 0 <= t < k ==> lower(s@)[base + t] == sfx@[t],
        decreases fl - k,
    {
        let c = s.get_char(base + k);
        let lc = if 'A' <= c && c <= 'Z' {
            (((c as u8) + 32) as u8) as char
        } else {
            c
        };
        assert(lc == lower_char(c));
        if lc != sfx.get_char(k) {
            assert(lower(s@).subrange(base as int, sl as int)[k as int] != sfx@[k as int]);
            return false;
        }
        k = k + 1;
    }
    assert(lower(s@).subrange(base as int, sl as int) =~= sfx@);
    true
}

/// Whether `s` starts with `pre` followed by `/`; used when a path is made
/// relative to a base directory.
pub fn strip_dir_prefix(s: &str, pre: &str) -> (r: Option<String>)
    ensures
        match r {
            Some(rest) => s@.len() > pre@.len() + 1 && starts_with(s@, pre@.push('/'))
                && rest@ == s@.subrange(pre@.len() as int + 1, s@.len() as int),
            None => !(s@.len() > pre@.len() + 1 && starts_with(s@, pre@.push('/'))),
        },
{
    let sl = s.unicode_len();
    let pl = pre.unicode_len();
    if pl >= sl || sl - pl <= 1 {
        return None;
    }
    let mut k: usize = 0;
    while k < pl
        invariant
            sl == s@.len(),
            pl == pre@.len(),
            sl > pl + 1,
            0 <= k <= pl,
            forall|t: int| 0 <= t < k ==> s@[t] == pre@[t],
        decreases pl - k,
    {
        if s.get_char(k) != pre.get_char(k) {
            assert(s@.subrange(0, pre@.push('/').len() as int)[k as int] != pre@.push('/')[k as int]);
            return None;
        }
        k = k + 1;
    }
    if s.get_char(pl) != '/' {
        assert(s@.subrange(0, pre@.push('/').len() as int)[pl as int] != pre@.push('/')[pl as int]);
        return None;
    }
    let rest = s.substring_char(pl + 1, sl);
    assert(s@.subrange(0, pre@.push('/').len() as int) =~= pre@.push('/'));
    Some(rest.to_owned())
}

} // verus!

