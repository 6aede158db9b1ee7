//! The scan engine.  A [`Meister`] holds a compiled catalog of build-tool
//! definitions and scans a target — a directory tree or an archive file —
//! for the marker files the catalog describes.

use vstd::prelude::*;

use crate::defs::{BuildToolDef, BuildToolDefs, DefModel};
use crate::extractors::{is_supported_archive_format, list_entries};
use crate::fsinfo::path_is_file;
use crate::matcher::{
    build_exclude_matchers, build_matchers, compiled_from, defs_errors, defs_ok, exclude_of,
    multi_matches, MultipleMatcher,
};
use crate::strutil::{starts_with, str_eq, strip_dir_prefix};
use crate::{nonempty_array, IgnoreType, MeisterError, Result};

verus! {

/// One outcome of a directory walk: an entry's path, or the error the walk
/// raised for it.
pub type WalkEntry = core::result::Result<String, String>;

/// One detected marker: the path that matched and the definition it matched.
#[derive(Debug)]
pub struct BuildTool {
    pub path: String,
    pub def: BuildToolDef,
}

/// The result of scanning one target: the target's path and every detected
/// marker, in discovery order.
#[derive(Debug)]
pub struct BuildTools {
    pub base: String,
    pub tools: Vec<BuildTool>,
}

/// Whether `p` can be made relative to `base`: it is the base itself, or it
/// lies under `base/`.
pub open spec fn spec_strippable(base: Seq<char>, p: Seq<char>) -> bool {
    p == base || (p.len() > base.len() + 1 && starts_with(p, base.push('/')))
}

/// A path made relative to a base: the part after `base/` when the path lies
/// under the base, empty when it is the base itself, the path unchanged
/// otherwise.
pub open spec fn spec_relative(base: Seq<char>, p: Seq<char>) -> Seq<char> {
    if p == base {
        Seq::<char>::empty()
    } else if p.len() > base.len() + 1 && starts_with(p, base.push('/')) {
        p.subrange(base.len() as int + 1, p.len() as int)
    } else {
        p
    }
}

/// Makes `p` relative to `base` where that is possible.
pub fn try_relative(p: &str, base: &str) -> (r: Option<String>)
    ensures
        r is Some <==> spec_strippable(base@, p@),
        r matches Some(s) ==> s@ == spec_relative(base@, p@),
{
    if str_eq(p, base) {
        return Some(String::new());
    }
    strip_dir_prefix(p, base)
}

impl BuildTools {
    /// The path of the detected file at `index`, relative to the scanned
    /// target where it lies under it.
    pub fn path_of(&self, index: usize) -> (r: Result<String>)
        ensures
            r is Ok <==> index < self.tools@.len(),
            r is Ok ==> r->Ok_0@ == spec_relative(self.base@, self.tools@[index as int].path@),
            r is Err ==> r->Err_0 is Fatal,
    {
        if index >= self.tools.len() {
            return Err(MeisterError::Fatal("index out of range".to_owned()));
        }
        let p = &self.tools[index].path;
        match try_relative(p.as_str(), self.base.as_str()) {
            Some(rest) => Ok(rest),
            None => Ok(p.clone()),
        }
    }
}

/// The flags a scan works with: the given ones, or `Default` alone when none
/// were given at all.
pub open spec fn effective_flags(its: Seq<IgnoreType>) -> Seq<IgnoreType> {
    if its.len() == 0 {
        seq![IgnoreType::Default]
    } else {
        its
    }
}

/// What one flag contributes: `Default` stands for the four git-related
/// filters, every other flag for itself.
pub open spec fn expands_to(it: IgnoreType, t: IgnoreType) -> bool {
    if it == IgnoreType::Default {
        t == IgnoreType::Ignore || t == IgnoreType::GitIgnore || t == IgnoreType::GitGlobal || t
            == IgnoreType::GitExclude
    } else {
        t == it
    }
}

/// The set of concrete filters a flag list enables.
pub open spec fn normalized_set(its: Seq<IgnoreType>) -> Set<IgnoreType> {
    Set::new(|t: IgnoreType| exists|i: int| 0 <= i < its.len() && expands_to(its[i], t))
}

/// Whether `v` holds `t`.
fn vec_contains_it(v: &Vec<IgnoreType>, t: IgnoreType) -> (r: bool)
    ensures
        r == v@.contains(t),
{
    let mut i: usize = 0;
    while i < v.len()
        invariant
            0 <= i <= v@.len(),
            forall|k: int| 0 <= k < i ==> v@[k] != t,
        decreases v@.len() - i,
    {
        if v[i] == t {
            return true;
        }
        i = i + 1;
    }
    false
}

/// Pushes `t` unless it is already present.
fn push_unique(v: &mut Vec<IgnoreType>, t: IgnoreType)
    ensures
        forall|x: IgnoreType| final(v)@.contains(x) <==> old(v)@.contains(x) || x == t,
        old(v)@.no_duplicates() ==> final(v)@.no_duplicates(),
{
    let ghost oldv = v@;
    if !vec_contains_it(v, t) {
        v.push(t);
        proof {
            assert(v@ == oldv.push(t));
            assert forall|x: IgnoreType| v@.contains(x) <==> oldv.contains(x) || x == t by {
                if oldv.contains(x) {
                    let i = choose|i: int| 0 <= i < oldv.len() && oldv[i] == x;
                    assert(v@[i] == x);
                }
                if x == t {
                    assert(v@[oldv.len() as int] == t);
                }
                if v@.contains(x) {
                    let i = choose|i: int| 0 <= i < v@.len() && v@[i] == x;
                    if i < oldv.len() {
                        assert(oldv[i] == x);
                    }
                }
            }
            if oldv.no_duplicates() {
                assert forall|i: int, j: int|
                    0 <= i < v@.len() && 0 <= j < v@.len() && i != j implies v@[i] != v@[j] by {
                    if i < oldv.len() && j < oldv.len() {
                    } else if i < oldv.len() {
                        assert(v@[j] == t && !oldv.contains(t));
                        assert(oldv[i] == v@[i]);
                    } else {
                        assert(v@[i] == t && !oldv.contains(t));
                        assert(oldv[j] == v@[j]);
                    }
                }
            }
        }
    }
}

/// Expands the flag list into the set of concrete filters it enables:
/// `Default` becomes the four git-related filters, every other flag stands
/// for itself, and nothing appears twice.
pub fn normalize_ignore_types(its: &Vec<IgnoreType>) -> (r: Vec<IgnoreType>)
    ensures
        forall|t: IgnoreType| r@.contains(t) <==> normalized_set(its@).contains(t),
        r@.no_duplicates(),
{
    let mut result: Vec<IgnoreType> = Vec::new();
    let n = its.len();
    let mut i: usize = 0;
    while i < n
        invariant
            n == its@.len(),
            0 <= i <= n,
            forall|t: IgnoreType| #[trigger]
                result@.contains(t) <==> exists|k: int| 0 <= k < i && expands_to(its@[k], t),
            result@.no_duplicates(),
        decreases n - i,
    {
        let it = its[i];
        if it == IgnoreType::Default {
            push_unique(&mut result, IgnoreType::Ignore);
            push_unique(&mut result, IgnoreType::GitIgnore);
            push_unique(&mut result, IgnoreType::GitGlobal);
            push_unique(&mut result, IgnoreType::GitExclude);
        } else {
            push_unique(&mut result, it);
        }
        proof {
            assert forall|t: IgnoreType| #[trigger]
                result@.contains(t) <==> exists|k: int| 0 <= k < i + 1 && expands_to(
                    its@[k],
                    t,
                ) by {
                if result@.contains(t) {
                    if expands_to(its@[i as int], t) {
                        assert(0 <= i < i + 1 && expands_to(its@[i as int], t));
                    }
                }
                if exists|k: int| 0 <= k < i + 1 && expands_to(its@[k], t) {
                    let k = choose|k: int| 0 <= k < i + 1 && expands_to(its@[k], t);
                    if k == i {
                        assert(expands_to(it, t));
                    }
                }
            }
        }
        i = i + 1;
    }
    assert forall|t: IgnoreType| result@.contains(t) <==> normalized_set(its@).contains(t) by {}
    result
}

/// Law: the `Default` flag alone enables exactly the four git-related
/// filters — `Ignore`, `GitIgnore`, `GitGlobal`, and `GitExclude` — and
/// together with `Hidden` exactly those four and `Hidden`.
pub proof fn lemma_default_expansion()
    ensures
        normalized_set(seq![IgnoreType::Default]) =~= set![
            IgnoreType::Ignore,
            IgnoreType::GitIgnore,
            IgnoreType::GitGlobal,
            IgnoreType::GitExclude,
        ],
        normalized_set(seq![IgnoreType::Default, IgnoreType::Hidden]) =~= set![
            IgnoreType::Ignore,
            IgnoreType::GitIgnore,
            IgnoreType::GitGlobal,
            IgnoreType::GitExclude,
            IgnoreType::Hidden,
        ],
{
    let s1 = seq![IgnoreType::Default];
    assert forall|t: IgnoreType| normalized_set(s1).contains(t) implies expands_to(
        IgnoreType::Default,
        t,
    ) by {
        let i = choose|i: int| 0 <= i < s1.len() && expands_to(s1[i], t);
        assert(s1[i] == IgnoreType::Default);
    }
    assert(expands_to(IgnoreType::Default, IgnoreType::Ignore) && s1[0] == IgnoreType::Default);
    assert(normalized_set(s1).contains(IgnoreType::Ignore));
    assert(normalized_set(s1).contains(IgnoreType::GitIgnore));
    assert(normalized_set(s1).contains(IgnoreType::GitGlobal));
    assert(normalized_set(s1).contains(IgnoreType::GitExclude));
    let s2 = seq![IgnoreType::Default, IgnoreType::Hidden];
    assert(s2[0] == IgnoreType::Default && s2[1] == IgnoreType::Hidden);
    assert(normalized_set(s2).contains(IgnoreType::Ignore));
    assert(normalized_set(s2).contains(IgnoreType::GitIgnore));
    assert(normalized_set(s2).contains(IgnoreType::GitGlobal));
    assert(normalized_set(s2).contains(IgnoreType::GitExclude));
    assert(normalized_set(s2).contains(IgnoreType::Hidden));
}

/// Law: supplying no ignore flag at all is the same as supplying `Default`
/// alone — the flags a scan works with, and so the filters it enables, are
/// identical.
pub proof fn lemma_empty_flags_mean_default()
    ensures
        effective_flags(Seq::<IgnoreType>::empty()) == effective_flags(seq![IgnoreType::Default]),
        normalized_set(effective_flags(Seq::<IgnoreType>::empty())) =~= normalized_set(
            effective_flags(seq![IgnoreType::Default]),
        ),
{
    assert(effective_flags(Seq::<IgnoreType>::empty()) =~= seq![IgnoreType::Default]);
}

/// Relies on `ignore::WalkBuilder`: walks every reachable entry under `base`
/// with the five filters as configured, yielding each entry's path or the
/// error it raised.  What comes back depends on what is on disk.
#[verifier::external_body]
fn walk_entries(
    base: &str,
    hidden: bool,
    ignore_files: bool,
    git_ignore: bool,
    git_global: bool,
    git_exclude: bool,
) -> Vec<core::result::Result<String, String>> {
    let walker = ignore::WalkBuilder::new(base)
        .hidden(hidden)
        .ignore(ignore_files)
        .git_ignore(git_ignore)
        .git_global(git_global)
        .git_exclude(git_exclude)
        .build();
    let mut out = Vec::new();
    for entry in walker {
        match entry {
            Ok(e) => out.push(Ok(e.path().display().to_string())),
            Err(e) => out.push(Err(e.to_string())),
        }
    }
    out
}

/// The paths the tools of a scan result report, in report order.
pub open spec fn tool_paths(ts: Seq<BuildTool>) -> Seq<Seq<char>> {
    ts.map_values(|bt: BuildTool| bt.path@)
}

/// The targets of a walk's successful entries, in walk order: each entry's
/// path made relative to the base.
pub open spec fn ok_targets(base: Seq<char>, es: Seq<WalkEntry>) -> Seq<Seq<char>> {
    es.filter(|e: WalkEntry| e is Ok).map_values(
        |e: WalkEntry| spec_relative(base, e->Ok_0@),
    )
}

/// The failed entries of a walk, in walk order.
pub open spec fn walk_failures(es: Seq<WalkEntry>) -> Seq<WalkEntry> {
    es.filter(|e: WalkEntry| e is Err)
}

/// The warning one failed walk entry yields.
pub open spec fn warning_for(x: WalkEntry, w: MeisterError) -> bool {
    match w {
        MeisterError::Warning(m) => x is Err && m@ == "walking: "@ + x->Err_0@,
        _ => false,
    }
}

/// The aggregate a failed walk reports: one warning per failed entry, in
/// walk order.
pub open spec fn walk_warnings(es: Seq<WalkEntry>, e: MeisterError) -> bool {
    match e {
        MeisterError::Array(ws) => ws@.len() == walk_failures(es).len() && forall|i: int|
            0 <= i < ws@.len() ==> warning_for(walk_failures(es)[i], #[trigger] ws@[i]),
        _ => false,
    }
}

/// `d` is one of the catalog's definitions.
pub open spec fn def_in_catalog(ds: Seq<DefModel>, d: DefModel) -> bool {
    exists|k: int| 0 <= k < ds.len() && (#[trigger] ds[k]) == d
}

/// Every tool of every result carries a definition of the catalog `ds`.
pub open spec fn tools_from_catalog(ds: Seq<DefModel>, rs: Seq<BuildTools>) -> bool {
    forall|i: int, j: int|
        #![trigger rs[i].tools@[j]]
        0 <= i < rs.len() && 0 <= j < rs[i].tools@.len() ==> def_in_catalog(
            ds,
            rs[i].tools@[j].def@,
        )
}

/// A sequence none of whose elements is a failure has no failures.
proof fn lemma_no_failures(es: Seq<WalkEntry>)
    requires
        forall|i: int| 0 <= i < es.len() ==> !((#[trigger] es[i]) is Err),
    ensures
        walk_failures(es).len() == 0,
    decreases es.len(),
{
    reveal(Seq::filter);
    if es.len() > 0 {
        lemma_no_failures(es.drop_last());
    }
}

/// The scan engine: the catalog, the compiled per-definition matchers, the
/// exclude filter, and the traversal flags.
pub struct Meister {
    pub defs: Vec<BuildToolDef>,
    pub excludes: MultipleMatcher,
    pub matchers: Vec<MultipleMatcher>,
    pub its: Vec<IgnoreType>,
}

impl Meister {
    /// A well-formed engine: one compiled matcher per definition, compiled
    /// from that definition's patterns, and at least one traversal flag.
    pub open spec fn wf(&self) -> bool {
        &&& self.matchers@.len() == self.defs@.len()
        &&& forall|i: int|
            0 <= i < self.defs@.len() ==> compiled_from(
                self.defs.deep_view()[i].build_files,
                #[trigger] self.matchers@[i],
            )
        &&& self.its@.len() > 0
    }

    /// Definition `j` is the first of the catalog whose matcher matches `p`.
    pub open spec fn first_match_at(&self, p: Seq<char>, j: int) -> bool {
        &&& 0 <= j < self.matchers@.len()
        &&& multi_matches(self.matchers@[j], p)
        &&& forall|k: int| 0 <= k < j ==> !multi_matches(#[trigger] self.matchers@[k], p)
    }

    /// Some definition of the catalog matches `p`.
    pub open spec fn some_match(&self, p: Seq<char>) -> bool {
        exists|j: int| 0 <= j < self.matchers@.len() && multi_matches(#[trigger] self.matchers@[j], p)
    }

    /// `bt` reports the first definition that matches its path, and carries
    /// that definition.
    pub open spec fn tool_found(&self, bt: BuildTool) -> bool {
        exists|j: int|
            #![auto]
            self.first_match_at(bt.path@, j) && bt.def@ == self.defs.deep_view()[j]
    }

    /// Whether a directory-scan target is reported: it survives the exclude
    /// filter and some definition of the catalog matches it.
    pub open spec fn dir_reported(&self, t: Seq<char>) -> bool {
        !multi_matches(self.excludes, t) && self.some_match(t)
    }

    /// Builds an engine from a catalog and traversal flags, with no exclude
    /// patterns.  An empty flag list means `Default`.  Construction fails
    /// exactly when some pattern of the catalog does not compile, reporting
    /// one aggregate entry per failing definition, every definition
    /// attempted.
    pub fn new(defs: BuildToolDefs, its: Vec<IgnoreType>) -> (r: Result<Meister>)
        ensures
            r is Ok <==> defs_ok(defs@),
            r is Ok ==> (r->Ok_0).wf() && (r->Ok_0).defs.deep_view() == defs@
                && (r->Ok_0).its@ == effective_flags(its@)
                && (r->Ok_0).excludes.matchers@.len() == 0,
            r is Err ==> defs_errors(defs@, r->Err_0) && nonempty_array(r->Err_0),
    {
        Meister::new_with_excludes(defs, its, Vec::new())
    }

    /// Builds an engine from a catalog, traversal flags, and exclude
    /// patterns.  An empty flag list means `Default`.  Construction fails
    /// exactly when some pattern of the catalog does not compile, reporting
    /// one aggregate entry per failing definition, every definition
    /// attempted; exclude patterns always compile.
    pub fn new_with_excludes(defs: BuildToolDefs, its: Vec<IgnoreType>, excludes: Vec<String>) -> (r:
        Result<Meister>)
        ensures
            r is Ok <==> defs_ok(defs@),
            r is Ok ==> (r->Ok_0).wf() && (r->Ok_0).defs.deep_view() == defs@
                && (r->Ok_0).its@ == effective_flags(its@)
                && (r->Ok_0).excludes.matchers@.len() == excludes@.len()
                && (forall|i: int|
                    0 <= i < excludes@.len() ==> exclude_of(
                        excludes.deep_view()[i],
                        (r->Ok_0).excludes.matchers@[i],
                    )),
            r is Err ==> defs_errors(defs@, r->Err_0) && nonempty_array(r->Err_0),
    {
        let its2 = if its.is_empty() {
            vec![IgnoreType::Default]
        } else {
            its
        };
        match build_matchers(&defs.defs) {
            Ok(m) => {
                let meister = Meister {
                    defs: defs.defs,
                    excludes: build_exclude_matchers(excludes),
                    matchers: m,
                    its: its2,
                };
                Ok(meister)
            },
            Err(e) => Err(e),
        }
    }

    /// Builds an engine from the built-in catalog with the `Default` flag.
    /// Every built-in pattern compiles, so this always succeeds, and the
    /// engine holds exactly the built-in catalog.
    pub fn new_as_default() -> (r: Result<Meister>)
        ensures
            r is Ok,
            (r->Ok_0).wf(),
            (r->Ok_0).defs.deep_view() == crate::defs::spec_default_defs(),
            (r->Ok_0).its@ == seq![IgnoreType::Default],
    {
        match BuildToolDefs::parse_from_asset() {
            Ok(defs) => Meister::new(defs, vec![IgnoreType::Default]),
            Err(e) => Err(e),
        }
    }

    /// Scans a target.  A regular file must be a recognised archive, whose
    /// member list is scanned without the exclude filter; anything else is
    /// walked as a directory, where excluded entries are skipped.  Every
    /// reported tool carries the first definition of the catalog that
    /// matches its path, and an unsupported-format error names the target
    /// and arises only when the suffix table rejects its name.
    pub fn find(&self, base: String) -> (r: Result<BuildTools>)
        requires
            self.wf(),
        ensures
            r is Ok ==> (r->Ok_0).base@ == base@ && forall|i: int|
                0 <= i < (r->Ok_0).tools@.len() ==> self.tool_found(
                    #[trigger] (r->Ok_0).tools@[i],
                ),
            r is Err && r->Err_0 is UnsupportedArchiveFormat ==> crate::extractors::spec_find_format(
                base@,
            ) is None && r->Err_0->UnsupportedArchiveFormat_0@ == base@,
    {
        if path_is_file(base.as_str()) {
            if is_supported_archive_format(base.as_str()) {
                self.find_archive(base)
            } else {
                Err(MeisterError::UnsupportedArchiveFormat(base))
            }
        } else {
            self.find_directory(base)
        }
    }

    /// Scans one archive member list, already fetched: it reports, in member
    /// order, every member that some definition of the catalog matches, each
    /// carrying the first matching definition; the exclude filter is
    /// deliberately not applied to archive members.  This never fails.
    pub fn scan_members(&self, base: String, members: Vec<String>) -> (r: BuildTools)
        requires
            self.wf(),
        ensures
            r.base@ == base@,
            tool_paths(r.tools@) == members.deep_view().filter(
                |p: Seq<char>| self.some_match(p),
            ),
            forall|j: int| 0 <= j < r.tools@.len() ==> self.tool_found(#[trigger] r.tools@[j]),
    {
        let mut tools: Vec<BuildTool> = Vec::new();
        let n = members.len();
        let mut i: usize = 0;
        proof {
            reveal(Seq::filter);
            assert(members.deep_view().subrange(0, 0) =~= Seq::<Seq<char>>::empty());
            assert(tool_paths(tools@) =~= members.deep_view().subrange(0, 0).filter(
                |p: Seq<char>| self.some_match(p),
            ));
        }
        while i < n
            invariant
                self.wf(),
                n == members@.len(),
                members.deep_view().len() == n,
                0 <= i <= n,
                tool_paths(tools@) == members.deep_view().subrange(0, i as int).filter(
                    |p: Seq<char>| self.some_match(p),
                ),
                forall|k: int| 0 <= k < tools@.len() ==> self.tool_found(#[trigger] tools@[k]),
            decreases n - i,
        {
            let ghost prefix = members.deep_view().subrange(0, i as int);
            let ghost next = members.deep_view().subrange(0, i as int + 1);
            proof {
                reveal(Seq::filter);
                assert(next.drop_last() =~= prefix);
                assert(next.last() == members.deep_view()[i as int]);
            }
            let ghost before = tools@;
            match find_build_tool(self, members[i].as_str()) {
                Some(bt) => {
                    proof {
                        assert(self.some_match(members.deep_view()[i as int]));
                    }
                    tools.push(bt);
                    proof {
                        assert(tool_paths(tools@) =~= tool_paths(before).push(
                            members.deep_view()[i as int],
                        ));
                    }
                },
                None => {
                    proof {
                        assert(!self.some_match(members.deep_view()[i as int]));
                    }
                },
            }
            i = i + 1;
        }
        proof {
            assert(members.deep_view().subrange(0, n as int) =~= members.deep_view());
        }
        BuildTools { base, tools }
    }

    /// Scans one archive: its member list is fetched and handed to
    /// [`Meister::scan_members`], whose contract fixes the result; a listing
    /// failure is passed on unchanged.
    pub fn find_archive(&self, base: String) -> (r: Result<BuildTools>)
        requires
            self.wf(),
        ensures
            r is Ok ==> (r->Ok_0).base@ == base@ && forall|i: int|
                0 <= i < (r->Ok_0).tools@.len() ==> self.tool_found(
                    #[trigger] (r->Ok_0).tools@[i],
                ),
            r is Err ==> r->Err_0 is IO || r->Err_0 is Fatal || r->Err_0
                is UnsupportedArchiveFormat,
            r is Err && r->Err_0 is UnsupportedArchiveFormat ==> crate::extractors::spec_find_format(
                base@,
            ) is None && r->Err_0->UnsupportedArchiveFormat_0@ == base@,
    {
        match list_entries(base.as_str()) {
            Ok(members) => Ok(self.scan_members(base, members)),
            Err(e) => Err(e),
        }
    }

    /// Scans the outcome of one directory walk, already fetched: each
    /// successful entry is made relative to the base, skipped when the
    /// exclude filter matches it, and reported otherwise when some
    /// definition matches it, in walk order, each tool carrying the first
    /// matching definition.  It succeeds exactly when no entry failed; when
    /// any did, one warning per failed entry is reported together, in walk
    /// order, and no matches are returned.
    pub fn scan_entries(&self, base: String, entries: Vec<WalkEntry>) -> (r: Result<BuildTools>)
        requires
            self.wf(),
        ensures
            r is Ok <==> forall|i: int| 0 <= i < entries@.len() ==> !((#[trigger] entries@[i])
                is Err),
            r is Ok ==> (r->Ok_0).base@ == base@ && tool_paths((r->Ok_0).tools@) == ok_targets(
                base@,
                entries@,
            ).filter(|t: Seq<char>| self.dir_reported(t)) && forall|i: int|
                0 <= i < (r->Ok_0).tools@.len() ==> self.tool_found(
                    #[trigger] (r->Ok_0).tools@[i],
                ),
            r is Err ==> walk_warnings(entries@, r->Err_0),
    {
        let mut tools: Vec<BuildTool> = Vec::new();
        let mut errs: Vec<MeisterError> = Vec::new();
        let n = entries.len();
        let mut i: usize = 0;
        proof {
            reveal(Seq::filter);
            assert(entries@.subrange(0, 0) =~= Seq::<WalkEntry>::empty());
            assert(ok_targets(base@, entries@.subrange(0, 0)) =~= Seq::<Seq<char>>::empty());
            assert(tool_paths(tools@) =~= ok_targets(base@, entries@.subrange(0, 0)).filter(
                |t: Seq<char>| self.dir_reported(t),
            ));
        }
        while i < n
            invariant
                self.wf(),
                n == entries@.len(),
                0 <= i <= n,
                tool_paths(tools@) == ok_targets(base@, entries@.subrange(0, i as int)).filter(
                    |t: Seq<char>| self.dir_reported(t),
                ),
                forall|k: int| 0 <= k < tools@.len() ==> self.tool_found(#[trigger] tools@[k]),
                errs@.len() == walk_failures(entries@.subrange(0, i as int)).len(),
                forall|k: int|
                    0 <= k < errs@.len() ==> warning_for(
                        walk_failures(entries@.subrange(0, i as int))[k],
                        #[trigger] errs@[k],
                    ),
            decreases n - i,
        {
            let ghost prefix = entries@.subrange(0, i as int);
            let ghost next = entries@.subrange(0, i as int + 1);
            proof {
                reveal(Seq::filter);
                assert(next.drop_last() =~= prefix);
                assert(next.last() == entries@[i as int]);
            }
            let ghost before = tools@;
            match &entries[i] {
                Ok(p) => {
                    let target: String = match try_relative(p.as_str(), base.as_str()) {
                        Some(rest) => rest,
                        None => p.clone(),
                    };
                    proof {
                        assert(target@ == spec_relative(base@, p@));
                        assert(walk_failures(next) == walk_failures(prefix));
                        assert(ok_targets(base@, next) =~= ok_targets(base@, prefix).push(
                            target@,
                        ));
                        assert(ok_targets(base@, next).drop_last() =~= ok_targets(base@, prefix));
                        assert(ok_targets(base@, next).last() == target@);
                    }
                    let excluded = self.excludes.matches(target.as_str());
                    if !excluded {
                        match find_build_tool(self, target.as_str()) {
                            Some(bt) => {
                                proof {
                                    assert(self.dir_reported(target@));
                                    assert(ok_targets(base@, next).filter(
                                        |t: Seq<char>| self.dir_reported(t),
                                    ) == ok_targets(base@, prefix).filter(
                                        |t: Seq<char>| self.dir_reported(t),
                                    ).push(target@));
                                }
                                tools.push(bt);
                                proof {
                                    assert(tool_paths(tools@) =~= tool_paths(before).push(
                                        target@,
                                    ));
                                }
                            },
                            None => {
                                proof {
                                    assert(!self.dir_reported(target@));
                                    assert(ok_targets(base@, next).filter(
                                        |t: Seq<char>| self.dir_reported(t),
                                    ) == ok_targets(base@, prefix).filter(
                                        |t: Seq<char>| self.dir_reported(t),
                                    ));
                                }
                            },
                        }
                    } else {
                        proof {
                            assert(!self.dir_reported(target@));
                            assert(ok_targets(base@, next).filter(
                                |t: Seq<char>| self.dir_reported(t),
                            ) == ok_targets(base@, prefix).filter(
                                |t: Seq<char>| self.dir_reported(t),
                            ));
                        }
                    }
                },
                Err(e) => {
                    let mut msg = "walking: ".to_owned();
                    msg.append(e.as_str());
                    proof {
                        assert(ok_targets(base@, next) == ok_targets(base@, prefix));
                        assert(walk_failures(next) == walk_failures(prefix).push(
                            entries@[i as int],
                        ));
                        assert(warning_for(entries@[i as int], MeisterError::Warning(msg)));
                    }
                    errs.push(MeisterError::Warning(msg));
                },
            }
            i = i + 1;
        }
        proof {
            assert(entries@.subrange(0, n as int) =~= entries@);
        }
        if errs.is_empty() {
            proof {
                if exists|k: int| 0 <= k < entries@.len() && (#[trigger] entries@[k]) is Err {
                    let k = choose|k: int| 0 <= k < entries@.len() && (#[trigger] entries@[k])
                        is Err;
                    entries@.lemma_filter_contains(|e: WalkEntry| e is Err, k);
                }
            }
            Ok(BuildTools { base, tools })
        } else {
            proof {
                if forall|k: int| 0 <= k < entries@.len() ==> !((#[trigger] entries@[k]) is Err) {
                    lemma_no_failures(entries@);
                }
            }
            Err(MeisterError::Array(errs))
        }
    }

    /// Scans one directory: the walk's entries are fetched with the engine's
    /// traversal filters and handed to [`Meister::scan_entries`], whose
    /// contract fixes the result.
    pub fn find_directory(&self, base: String) -> (r: Result<BuildTools>)
        requires
            self.wf(),
        ensures
            r is Ok ==> (r->Ok_0).base@ == base@ && forall|i: int|
                0 <= i < (r->Ok_0).tools@.len() ==> self.tool_found(#[trigger] (r->Ok_0).tools@[i])
                    && !multi_matches(self.excludes, (r->Ok_0).tools@[i].path@),
            r is Err ==> r->Err_0 is Array,
    {
        let its = normalize_ignore_types(&self.its);
        let entries = walk_entries(
            base.as_str(),
            vec_contains_it(&its, IgnoreType::Hidden),
            vec_contains_it(&its, IgnoreType::Ignore),
            vec_contains_it(&its, IgnoreType::GitIgnore),
            vec_contains_it(&its, IgnoreType::GitGlobal),
            vec_contains_it(&its, IgnoreType::GitExclude),
        );
        let ghost entries_view = entries@;
        let r = self.scan_entries(base, entries);
        proof {
            if r is Ok {
                let reported = ok_targets(r->Ok_0.base@, entries_view).filter(
                    |t: Seq<char>| self.dir_reported(t),
                );
                assert forall|i: int| 0 <= i < (r->Ok_0).tools@.len() implies !multi_matches(
                    self.excludes,
                    (#[trigger] (r->Ok_0).tools@[i]).path@,
                ) by {
                    assert(tool_paths((r->Ok_0).tools@)[i] == (r->Ok_0).tools@[i].path@);
                    ok_targets(r->Ok_0.base@, entries_view).lemma_filter_pred(
                        |t: Seq<char>| self.dir_reported(t),
                        i,
                    );
                }
            }
        }
        r
    }
}

/// Scans every named target with one engine: when every target succeeded,
/// one result per target comes back, in target order, each carrying its
/// target as the base; when any target failed, every failure is reported
/// together and nothing else comes back.
pub fn find_all(meister: &Meister, targets: &Vec<String>) -> (r: Result<Vec<BuildTools>>)
    requires
        meister.wf(),
    ensures
        r is Ok ==> r->Ok_0@.len() == targets@.len() && forall|i: int|
            0 <= i < targets@.len() ==> (#[trigger] r->Ok_0@[i]).base@ == targets@[i]@,
        r is Ok ==> forall|i: int, j: int|
            #![auto]
            0 <= i < r->Ok_0@.len() && 0 <= j < r->Ok_0@[i].tools@.len() ==> meister.tool_found(
                r->Ok_0@[i].tools@[j],
            ),
        r is Err ==> nonempty_array(r->Err_0),
{
    let mut result: Vec<BuildTools> = Vec::new();
    let mut errs: Vec<MeisterError> = Vec::new();
    let n = targets.len();
    let mut i: usize = 0;
    while i < n
        invariant
            meister.wf(),
            n == targets@.len(),
            0 <= i <= n,
            errs@.len() == 0 ==> result@.len() == i && forall|k: int|
                0 <= k < i ==> (#[trigger] result@[k]).base@ == targets@[k]@,
            errs@.len() == 0 ==> forall|k: int, j: int|
                #![auto]
                0 <= k < result@.len() && 0 <= j < result@[k].tools@.len() ==> meister.tool_found(
                    result@[k].tools@[j],
                ),
        decreases n - i,
    {
        match meister.find(targets[i].clone()) {
            Ok(r) => {
                result.push(r);
            },
            Err(e) => {
                errs.push(e);
            },
        }
        i = i + 1;
    }
    if errs.is_empty() {
        Ok(result)
    } else {
        Err(MeisterError::Array(errs))
    }
}

/// Scans every project the inputs name with one engine built from the given
/// catalog: when everything succeeded, one result per resolved target comes
/// back, each of its tools carrying a definition of the given catalog; when
/// anything failed, the failures are reported together.
pub fn find_bt(defs: BuildToolDefs, opts: crate::cli::InputOpts) -> (r: Result<Vec<BuildTools>>)
    ensures
        r is Ok ==> defs_ok(defs@) && r->Ok_0@.len() > 0,
        r is Ok ==> tools_from_catalog(defs@, r->Ok_0@),
        r is Err ==> r->Err_0 is NoProjectSpecified || nonempty_array(r->Err_0),
{
    let projects = match opts.projects() {
        Ok(p) => p,
        Err(e) => {
            return Err(e);
        },
    };
    let meister = match Meister::new_with_excludes(defs, opts.ignore_types, opts.excludes) {
        Ok(m) => m,
        Err(e) => {
            return Err(e);
        },
    };
    let r = find_all(&meister, &projects);
    proof {
        if r is Ok {
            let rs = r->Ok_0@;
            let ds = defs@;
            assert forall|i: int, j: int|
                #![trigger rs[i].tools@[j]]
                0 <= i < rs.len() && 0 <= j < rs[i].tools@.len() implies def_in_catalog(
                ds,
                rs[i].tools@[j].def@,
            ) by {
                assert(meister.tool_found(rs[i].tools@[j]));
                let bt = rs[i].tools@[j];
                let jj = choose|jj: int|
                    #![auto]
                    meister.first_match_at(bt.path@, jj) && bt.def@ == meister.defs.deep_view()[jj];
                assert(ds[jj] == bt.def@);
            }
            assert(tools_from_catalog(ds, rs));
        }
    }
    r
}

/// Evaluates the catalog against one path: the first definition whose matcher
/// matches wins, and a path that matches no definition yields nothing.
pub fn find_build_tool(meister: &Meister, path: &str) -> (r: Option<BuildTool>)
    requires
        meister.wf(),
    ensures
        r is Some <==> meister.some_match(path@),
        r matches Some(bt) ==> bt.path@ == path@ && meister.tool_found(bt),
{
    let n = meister.matchers.len();
    let mut j: usize = 0;
    while j < n
        invariant
            meister.wf(),
            n == meister.matchers@.len(),
            0 <= j <= n,
            forall|k: int| 0 <= k < j ==> !multi_matches(#[trigger] meister.matchers@[k], path@),
        decreases n - j,
    {
        if meister.matchers[j].matches(path) {
            let def = meister.defs[j].clone();
            let bt = BuildTool { path: path.to_owned(), def };
            assert(meister.first_match_at(path@, j as int));
            assert(bt.def@ == meister.defs.deep_view()[j as int]);
            return Some(bt);
        }
        j = j + 1;
    }
    None
}

} // verus!
