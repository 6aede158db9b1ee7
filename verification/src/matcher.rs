//! The matchers a scan evaluates against each path: exact file names, glob
//! patterns, and raw substring filters, plus their OR-combination and the
//! compiler that turns a definition's patterns into matchers.

use vstd::prelude::*;

use path_matchers::PathMatcher;

use crate::defs::{BuildToolDef, DefModel};
use crate::strutil::{contains_substring, final_segment, final_segment_eq, has_substring};
use crate::{nonempty_array, MeisterError, Result};

verus! {

/// Whether a pattern is valid glob syntax; what `path_matchers::glob` accepts.
pub uninterp spec fn glob_ok_of(pattern: Seq<char>) -> bool;

/// Whether a glob pattern matches a path; what `path_matchers::glob`'s
/// matcher answers.  An invalid pattern matches nothing.
pub uninterp spec fn glob_match_of(pattern: Seq<char>, path: Seq<char>) -> bool;

/// Relies on `path_matchers::glob` (`glob::Pattern::new` underneath): whether
/// the pattern compiles, a function of the pattern text alone.
#[verifier::external_body]
fn glob_compiles(pattern: &str) -> (r: bool)
    ensures
        r == glob_ok_of(pattern@),
{
    path_matchers::glob(pattern).is_ok()
}

/// Relies on `path_matchers::glob` and its `PathMatcher::matches`
/// (`glob::Pattern::matches_path` with its default options, where `*` may
/// also cross `/`): whether the pattern matches the path, a function of the
/// two texts alone.
#[verifier::external_body]
fn glob_match(pattern: &str, path: &str) -> (r: bool)
    ensures
        r == glob_match_of(pattern@, path@),
{
    match path_matchers::glob(pattern) {
        Ok(g) => g.matches(std::path::Path::new(path)),
        Err(_) => false,
    }
}

/// Matches a path whose final segment equals `name` exactly, whatever the
/// parent directories are.
#[derive(Debug)]
pub struct FileNameMatcher {
    pub name: String,
}

/// Matches a path against a glob pattern.
#[derive(Debug)]
pub struct PathGlobMatcher {
    pub pattern: String,
}

/// Matches a path that holds `pattern` anywhere as a substring; the coarse
/// filter used for user-supplied excludes.
#[derive(Debug)]
pub struct PartialMatcher {
    pub pattern: String,
}

/// One compiled matcher.
#[derive(Debug)]
pub enum Matcher {
    FileName(FileNameMatcher),
    PathGlob(PathGlobMatcher),
    Partial(PartialMatcher),
}

/// The OR-combination of several matchers: it matches when any one of them
/// does.
#[derive(Debug)]
pub struct MultipleMatcher {
    pub matchers: Vec<Matcher>,
}

/// What one matcher answers for a path.
pub open spec fn matcher_matches(m: Matcher, p: Seq<char>) -> bool {
    match m {
        Matcher::FileName(f) => final_segment(p) == f.name@,
        Matcher::PathGlob(g) => glob_match_of(g.pattern@, p),
        Matcher::Partial(t) => has_substring(p, t.pattern@),
    }
}

/// What an OR-combination answers for a path.
pub open spec fn multi_matches(mm: MultipleMatcher, p: Seq<char>) -> bool {
    exists|i: int| 0 <= i < mm.matchers@.len() && matcher_matches(mm.matchers@[i], p)
}

/// Whether a pattern is compiled as a glob: it holds a `/` or a `*`.
pub open spec fn spec_is_glob_pattern(s: Seq<char>) -> bool {
    exists|i: int| 0 <= i < s.len() && (s[i] == '/' || s[i] == '*')
}

/// Whether a pattern compiles: a glob pattern must be valid glob syntax; an
/// exact name always compiles.
pub open spec fn pattern_ok(p: Seq<char>) -> bool {
    spec_is_glob_pattern(p) ==> glob_ok_of(p)
}

/// The matcher that compiling pattern `p` yields.
pub open spec fn matcher_of(p: Seq<char>, m: Matcher) -> bool {
    match m {
        Matcher::PathGlob(g) => spec_is_glob_pattern(p) && g.pattern@ == p,
        Matcher::FileName(f) => !spec_is_glob_pattern(p) && f.name@ == p,
        Matcher::Partial(_) => false,
    }
}

/// The matcher list that compiling the pattern list `files` yields, in order.
pub open spec fn compiled_from(files: Seq<Seq<char>>, mm: MultipleMatcher) -> bool {
    mm.matchers@.len() == files.len() && forall|i: int|
        0 <= i < files.len() ==> matcher_of(files[i], mm.matchers@[i])
}

/// Every pattern of the definition compiles.
pub open spec fn def_ok(d: DefModel) -> bool {
    forall|i: int| 0 <= i < d.build_files.len() ==> pattern_ok(d.build_files[i])
}

/// Every pattern of every definition compiles.
pub open spec fn defs_ok(s: Seq<DefModel>) -> bool {
    forall|i: int| 0 <= i < s.len() ==> def_ok(s[i])
}

/// The patterns of `files` that do not compile, in their original order.
pub open spec fn failing_patterns(files: Seq<Seq<char>>) -> Seq<Seq<char>> {
    files.filter(|p: Seq<char>| !pattern_ok(p))
}

/// The error one invalid pattern yields.
pub open spec fn glob_error_for(p: Seq<char>, e: MeisterError) -> bool {
    match e {
        MeisterError::Fatal(m) => m@ == "invalid glob pattern: "@ + p,
        _ => false,
    }
}

/// The aggregate one definition's compilation reports: one error per failing
/// pattern, in pattern order, every pattern attempted.
pub open spec fn def_errors(d: DefModel, e: MeisterError) -> bool {
    match e {
        MeisterError::Array(es) => es@.len() == failing_patterns(d.build_files).len()
            && forall|i: int|
            0 <= i < es@.len() ==> glob_error_for(
                failing_patterns(d.build_files)[i],
                #[trigger] es@[i],
            ),
        _ => false,
    }
}

/// The aggregate a catalog's compilation reports: one entry per failing
/// definition, in catalog order, every definition attempted.
pub open spec fn defs_errors(ds: Seq<DefModel>, e: MeisterError) -> bool {
    match e {
        MeisterError::Array(es) => {
            let bad = ds.filter(|d: DefModel| !def_ok(d));
            es@.len() == bad.len() && forall|i: int|
                0 <= i < es@.len() ==> def_errors(bad[i], #[trigger] es@[i])
        },
        _ => false,
    }
}

impl FileNameMatcher {
    /// Builds a matcher for exactly this file name.
    pub fn new(name: String) -> (r: FileNameMatcher)
        ensures
            r.name@ == name@,
    {
        FileNameMatcher { name }
    }

    /// Whether the final segment of `p` equals the name exactly.
    pub fn matches(&self, p: &str) -> (r: bool)
        ensures
            r == (final_segment(p@) == self.name@),
    {
        final_segment_eq(p, self.name.as_str())
    }
}

impl PathGlobMatcher {
    /// Builds a matcher for a glob pattern; an invalid pattern is refused.
    pub fn new(pattern: String) -> (r: Result<PathGlobMatcher>)
        ensures
            r is Ok <==> glob_ok_of(pattern@),
            r is Ok ==> r->Ok_0.pattern@ == pattern@,
            r is Err ==> glob_error_for(pattern@, r->Err_0),
    {
        if glob_compiles(pattern.as_str()) {
            Ok(PathGlobMatcher { pattern })
        } else {
            let mut msg = "invalid glob pattern: ".to_owned();
            msg.append(pattern.as_str());
            Err(MeisterError::Fatal(msg))
        }
    }

    /// Whether the glob pattern matches `p`.
    pub fn matches(&self, p: &str) -> (r: bool)
        ensures
            r == glob_match_of(self.pattern@, p@),
    {
        glob_match(self.pattern.as_str(), p)
    }
}

impl PartialMatcher {
    /// Whether `p` holds the pattern anywhere as a substring.
    pub fn matches(&self, p: &str) -> (r: bool)
        ensures
            r == has_substring(p@, self.pattern@),
    {
        contains_substring(p, self.pattern.as_str())
    }
}

impl Matcher {
    /// What this matcher answers for `p`.
    pub fn matches(&self, p: &str) -> (r: bool)
        ensures
            r == matcher_matches(*self, p@),
    {
        match self {
            Matcher::FileName(f) => f.matches(p),
            Matcher::PathGlob(g) => g.matches(p),
            Matcher::Partial(t) => t.matches(p),
        }
    }
}

impl MultipleMatcher {
    /// Whether any of the combined matchers matches `p`; the first match
    /// settles it.
    pub fn matches(&self, p: &str) -> (r: bool)
        ensures
            r == multi_matches(*self, p@),
    {
        let mut i: usize = 0;
        while i < self.matchers.len()
            invariant
                0 <= i <= self.matchers@.len(),
                forall|k: int| 0 <= k < i ==> !matcher_matches(self.matchers@[k], p@),
            decreases self.matchers@.len() - i,
        {
            if self.matchers[i].matches(p) {
                return true;
            }
            i = i + 1;
        }
        false
    }
}

/// Whether `s` holds a `/` or a `*`, which makes it a glob pattern.
fn is_glob_pattern(s: &str) -> (r: bool)
    ensures
        r == spec_is_glob_pattern(s@),
{
    let n = s.unicode_len();
    let mut i: usize = 0;
    while i < n
        invariant
            n == s@.len(),
            0 <= i <= n,
            forall|k: int| 0 <= k < i ==> !(s@[k] == '/' || s@[k] == '*'),
        decreases n - i,
    {
        let c = s.get_char(i);
        if c == '/' || c == '*' {
            return true;
        }
        i = i + 1;
    }
    false
}

/// Compiles one pattern: a glob matcher when the pattern holds `/` or `*`, an
/// exact-name matcher otherwise.
pub fn build_matcher_impl(filename: String) -> (r: Result<Matcher>)
    ensures
        r is Ok <==> pattern_ok(filename@),
        r is Ok ==> matcher_of(filename@, r->Ok_0),
        r is Err ==> glob_error_for(filename@, r->Err_0),
{
    if is_glob_pattern(filename.as_str()) {
        match PathGlobMatcher::new(filename) {
            Ok(g) => Ok(Matcher::PathGlob(g)),
            Err(e) => Err(e),
        }
    } else {
        Ok(Matcher::FileName(FileNameMatcher::new(filename)))
    }
}

/// Compiles every pattern of one definition into an OR-combination.  All
/// patterns are attempted; when any fails, every failure is reported together
/// and no matcher is returned.
pub fn build_matcher(def: BuildToolDef) -> (r: Result<MultipleMatcher>)
    ensures
        r is Ok <==> def_ok(def@),
        r is Ok ==> compiled_from(def@.build_files, r->Ok_0),
        r is Err ==> def_errors(def@, r->Err_0) && nonempty_array(r->Err_0),
{
    let mut matchers: Vec<Matcher> = Vec::new();
    let mut errs: Vec<MeisterError> = Vec::new();
    let n = def.build_files.len();
    let mut i: usize = 0;
    proof {
        reveal(Seq::filter);
        assert(def@.build_files.subrange(0, 0) =~= Seq::<Seq<char>>::empty());
    }
    while i < n
        invariant
            n == def.build_files@.len(),
            0 <= i <= n,
            def@.build_files.len() == n,
            errs@.len() == failing_patterns(def@.build_files.subrange(0, i as int)).len(),
            forall|k: int|
                0 <= k < errs@.len() ==> glob_error_for(
                    failing_patterns(def@.build_files.subrange(0, i as int))[k],
                    #[trigger] errs@[k],
                ),
            errs@.len() == 0 ==> matchers@.len() == i,
            errs@.len() == 0 ==> forall|k: int| 0 <= k < i ==> pattern_ok(
                #[trigger] def@.build_files[k],
            ),
            errs@.len() == 0 ==> forall|k: int|
                0 <= k < i ==> matcher_of(def@.build_files[k], #[trigger] matchers@[k]),
            errs@.len() > 0 ==> exists|k: int| 0 <= k < i && !pattern_ok(def@.build_files[k]),
        decreases n - i,
    {
        let ghost prefix = def@.build_files.subrange(0, i as int);
        let ghost next = def@.build_files.subrange(0, i as int + 1);
        proof {
            reveal(Seq::filter);
            assert(next.drop_last() =~= prefix);
            assert(next.last() == def@.build_files[i as int]);
        }
        let file = def.build_files[i].clone();
        assert(file@ == def@.build_files[i as int]);
        match build_matcher_impl(file) {
            Ok(m) => {
                proof {
                    assert(pattern_ok(def@.build_files[i as int]));
                    assert(matcher_of(def@.build_files[i as int], m));
                    assert(failing_patterns(next) == failing_patterns(prefix));
                }
                matchers.push(m);
            },
            Err(e) => {
                proof {
                    assert(!pattern_ok(def@.build_files[i as int]));
                    assert(failing_patterns(next) == failing_patterns(prefix).push(
                        def@.build_files[i as int],
                    ));
                    assert(glob_error_for(def@.build_files[i as int], e));
                }
                errs.push(e);
            },
        }
        i = i + 1;
    }
    proof {
        assert(def@.build_files.subrange(0, n as int) =~= def@.build_files);
    }
    if errs.is_empty() {
        let mm = MultipleMatcher { matchers };
        assert(compiled_from(def@.build_files, mm));
        Ok(mm)
    } else {
        Err(MeisterError::Array(errs))
    }
}

/// Compiles every definition of the catalog, in order.  All definitions are
/// attempted; when any pattern fails, every failure is reported together.
pub fn build_matchers(defs: &Vec<BuildToolDef>) -> (r: Result<Vec<MultipleMatcher>>)
    ensures
        r is Ok <==> defs_ok(defs.deep_view()),
        r is Ok ==> r->Ok_0@.len() == defs.deep_view().len() && forall|i: int|
            0 <= i < defs.deep_view().len() ==> compiled_from(
                defs.deep_view()[i].build_files,
                r->Ok_0@[i],
            ),
        r is Err ==> defs_errors(defs.deep_view(), r->Err_0) && nonempty_array(r->Err_0),
{
    let mut result: Vec<MultipleMatcher> = Vec::new();
    let mut errs: Vec<MeisterError> = Vec::new();
    let n = defs.len();
    let mut i: usize = 0;
    proof {
        reveal(Seq::filter);
        assert(defs.deep_view().subrange(0, 0) =~= Seq::<DefModel>::empty());
    }
    while i < n
        invariant
            n == defs@.len(),
            defs.deep_view().len() == n,
            0 <= i <= n,
            errs@.len() == defs.deep_view().subrange(0, i as int).filter(
                |d: DefModel| !def_ok(d),
            ).len(),
            forall|k: int|
                0 <= k < errs@.len() ==> def_errors(
                    defs.deep_view().subrange(0, i as int).filter(|d: DefModel| !def_ok(d))[k],
                    #[trigger] errs@[k],
                ),
            errs@.len() == 0 ==> result@.len() == i && forall|k: int|
                0 <= k < i ==> def_ok(defs.deep_view()[k]) && compiled_from(
                    defs.deep_view()[k].build_files,
                    result@[k],
                ),
            errs@.len() > 0 ==> exists|k: int| 0 <= k < i && !def_ok(defs.deep_view()[k]),
        decreases n - i,
    {
        let ghost prefix = defs.deep_view().subrange(0, i as int);
        let ghost next = defs.deep_view().subrange(0, i as int + 1);
        proof {
            reveal(Seq::filter);
            assert(next.drop_last() =~= prefix);
            assert(next.last() == defs.deep_view()[i as int]);
        }
        let d = defs[i].clone();
        assert(d@ == defs.deep_view()[i as int]);
        match build_matcher(d) {
            Ok(m) => {
                proof {
                    assert(def_ok(defs.deep_view()[i as int]));
                    assert(next.filter(|d: DefModel| !def_ok(d)) == prefix.filter(
                        |d: DefModel| !def_ok(d),
                    ));
                }
                result.push(m);
            },
            Err(e) => {
                proof {
                    assert(!def_ok(defs.deep_view()[i as int]));
                    assert(next.filter(|d: DefModel| !def_ok(d)) == prefix.filter(
                        |d: DefModel| !def_ok(d),
                    ).push(defs.deep_view()[i as int]));
                    assert(def_errors(defs.deep_view()[i as int], e));
                }
                errs.push(e);
            },
        }
        i = i + 1;
    }
    proof {
        assert(defs.deep_view().subrange(0, n as int) =~= defs.deep_view());
    }
    if errs.is_empty() {
        Ok(result)
    } else {
        Err(MeisterError::Array(errs))
    }
}

/// The matcher that an exclude pattern yields: a raw substring filter.
pub open spec fn exclude_of(p: Seq<char>, m: Matcher) -> bool {
    match m {
        Matcher::Partial(t) => t.pattern@ == p,
        _ => false,
    }
}

/// Builds the exclude filter: one substring matcher for each exclude pattern,
/// OR-combined.  This never fails.
pub fn build_exclude_matchers(excludes: Vec<String>) -> (r: MultipleMatcher)
    ensures
        r.matchers@.len() == excludes@.len(),
        forall|i: int| 0 <= i < excludes@.len() ==> exclude_of(excludes.deep_view()[i], r.matchers@[i]),
{
    let mut matchers: Vec<Matcher> = Vec::new();
    let n = excludes.len();
    let mut i: usize = 0;
    while i < n
        invariant
            n == excludes@.len(),
            0 <= i <= n,
            matchers@.len() == i,
            forall|k: int| 0 <= k < i ==> exclude_of(excludes.deep_view()[k], matchers@[k]),
        decreases n - i,
    {
        matchers.push(Matcher::Partial(PartialMatcher { pattern: excludes[i].clone() }));
        i = i + 1;
    }
    MultipleMatcher { matchers }
}

} // verus!
