//! The input side of the command line: the output-format choice and the
//! resolution of project arguments — plain paths, `@file` lists, and `-` for
//! standard input — into the list of targets a scan will visit.

use vstd::prelude::*;

use std::io::BufRead;

use crate::extractors::is_supported_archive_format;
use crate::fsinfo::{path_exists, path_is_dir, path_is_file};
use crate::strutil::{join_path, parent_dir, spec_join, spec_trim, trim};
use crate::{nonempty_array, MeisterError, Result};

verus! {

/// The output formats the command line offers.
#[derive(Copy, Clone, PartialEq, Eq, Structural, Debug)]
pub enum Format {
    Csv,
    Default,
    Json,
    Markdown,
    Xml,
    Yaml,
}

/// The project inputs: traversal flags, exclude patterns, and the raw
/// project arguments.
#[derive(Debug)]
pub struct InputOpts {
    pub ignore_types: Vec<crate::IgnoreType>,
    pub excludes: Vec<String>,
    pub dirs: Vec<String>,
}

/// What a project list's lines resolve to: each line is trimmed, a line
/// that is then empty or starts with `#` is dropped, and every kept line is
/// placed under the list's parent directory, in line order.
pub open spec fn resolved_lines(lines: Seq<Seq<char>>, parent: Seq<char>) -> Seq<Seq<char>> {
    lines.map_values(|l: Seq<char>| spec_trim(l)).filter(|t: Seq<char>| line_kept(t)).map_values(
        |t: Seq<char>| spec_join(parent, t),
    )
}

/// A trimmed line that names a project: it is not empty and is not a `#`
/// comment.
pub open spec fn line_kept(t: Seq<char>) -> bool {
    t.len() > 0 && t[0] != '#'
}

/// Resolves the lines of a project list against the list's parent
/// directory: each line is trimmed, comments and blank lines are dropped,
/// and every kept name is placed under the parent, in line order.
pub fn read_from_reader(lines: Vec<String>, parent: &str) -> (r: Result<Vec<String>>)
    ensures
        r is Ok,
        r->Ok_0.deep_view() == resolved_lines(lines.deep_view(), parent@),
{
    let mut result: Vec<String> = Vec::new();
    let n = lines.len();
    let mut i: usize = 0;
    proof {
        reveal(Seq::filter);
        assert(lines.deep_view().subrange(0, 0) =~= Seq::<Seq<char>>::empty());
        assert(lines.deep_view().subrange(0, 0).map_values(|l: Seq<char>| spec_trim(l))
            =~= Seq::<Seq<char>>::empty());
        assert(result.deep_view() =~= resolved_lines(lines.deep_view().subrange(0, 0), parent@));
    }
    while i < n
        invariant
            n == lines@.len(),
            lines.deep_view().len() == n,
            0 <= i <= n,
            result.deep_view() == resolved_lines(lines.deep_view().subrange(0, i as int), parent@),
        decreases n - i,
    {
        let ghost prefix = lines.deep_view().subrange(0, i as int);
        let ghost next = lines.deep_view().subrange(0, i as int + 1);
        let ghost tm = prefix.map_values(|l: Seq<char>| spec_trim(l));
        let t = trim(lines[i].as_str());
        proof {
            reveal(Seq::filter);
            assert(next.drop_last() =~= prefix);
            assert(next.last() == lines.deep_view()[i as int]);
            assert(t@ == spec_trim(lines.deep_view()[i as int]));
            assert(next.map_values(|l: Seq<char>| spec_trim(l)) =~= tm.push(t@));
            assert(tm.push(t@).drop_last() =~= tm);
        }
        let ghost before = result.deep_view();
        if line_kept_exec(t.as_str()) {
            let joined = join_path(parent, t.as_str());
            proof {
                assert(tm.push(t@).filter(|x: Seq<char>| line_kept(x)) == tm.filter(
                    |x: Seq<char>| line_kept(x),
                ).push(t@));
            }
            result.push(joined);
            proof {
                assert(result.deep_view() =~= before.push(spec_join(parent@, t@)));
                assert(result.deep_view() =~= resolved_lines(next, parent@));
            }
        } else {
            proof {
                assert(tm.push(t@).filter(|x: Seq<char>| line_kept(x)) == tm.filter(
                    |x: Seq<char>| line_kept(x),
                ));
                assert(result.deep_view() =~= resolved_lines(next, parent@));
            }
        }
        i = i + 1;
    }
    proof {
        assert(lines.deep_view().subrange(0, n as int) =~= lines.deep_view());
    }
    Ok(result)
}

/// Whether a trimmed line names a project.
fn line_kept_exec(t: &str) -> (r: bool)
    ensures
        r == line_kept(t@),
{
    t.unicode_len() > 0 && t.get_char(0) != '#'
}

/// Relies on `fs_err::File::open` and `BufRead::lines`: the file's lines up
/// to the first unreadable one, or the open error's message.  What comes
/// back depends on what is on disk.
#[verifier::external_body]
fn read_file_lines(filename: &str) -> core::result::Result<Vec<String>, String> {
    match fs_err::File::open(filename) {
        Ok(f) => Ok(
            std::io::BufReader::new(f).lines().map_while(|r| r.ok()).collect(),
        ),
        Err(e) => Err(e.to_string()),
    }
}

/// Relies on `std::io::Stdin::lock` and `BufRead::lines`: the lines standard
/// input holds, up to the first unreadable one.
#[verifier::external_body]
fn read_stdin_lines() -> Vec<String> {
    std::io::stdin().lock().lines().map_while(|r| r.ok()).collect()
}

/// The error recorded for one rejected project argument.
pub open spec fn not_found_for(item: Seq<char>, e: MeisterError) -> bool {
    match e {
        MeisterError::ProjectNotFound(p) => p@ == item,
        _ => false,
    }
}

/// One project argument was settled: either it was accepted as a target, or
/// exactly one error was recorded for it.
pub open spec fn item_settled(
    item: Seq<char>,
    old_result: Seq<String>,
    new_result: Seq<String>,
    old_errs: Seq<MeisterError>,
    new_errs: Seq<MeisterError>,
) -> bool {
    ||| (new_result.len() == old_result.len() + 1 && new_result.drop_last() == old_result
        && new_result.last()@ == item && new_errs == old_errs)
    ||| (new_result == old_result && new_errs.len() == old_errs.len() + 1
        && new_errs.drop_last() == old_errs)
}

/// Accepts one project argument when the file system shows it as a directory
/// or as a recognised archive file; records a `ProjectNotFound` error naming
/// the argument otherwise.  What the file system shows decides which.
pub fn convert_and_push_item(
    item: &str,
    result: &mut Vec<String>,
    errs: &mut Vec<MeisterError>,
)
    ensures
        item_settled(item@, old(result)@, final(result)@, old(errs)@, final(errs)@),
        final(errs)@.len() > old(errs)@.len() ==> not_found_for(item@, final(errs)@.last()),
{
    if !path_exists(item) {
        errs.push(MeisterError::ProjectNotFound(item.to_owned()));
    } else if path_is_file(item) {
        if is_supported_archive_format(item) {
            result.push(item.to_owned());
        } else {
            errs.push(MeisterError::ProjectNotFound(item.to_owned()));
        }
    } else if path_is_dir(item) {
        result.push(item.to_owned());
    } else {
        errs.push(MeisterError::ProjectNotFound(item.to_owned()));
    }
    proof {
        if result@.len() > old(result)@.len() {
            assert(result@.drop_last() =~= old(result)@);
        } else {
            assert(errs@.drop_last() =~= old(errs)@);
        }
    }
}

/// Settles every line that a project list yielded: each resolved name is
/// accepted or gets its error; a failed read contributes its error instead.
fn push_items_or_errs(
    r: core::result::Result<Vec<String>, String>,
    parent: &str,
    results: &mut Vec<String>,
    errs: &mut Vec<MeisterError>,
)
    ensures
        final(results)@.len() >= old(results)@.len(),
        final(errs)@.len() >= old(errs)@.len(),
        final(results)@.subrange(0, old(results)@.len() as int) == old(results)@,
        final(errs)@.subrange(0, old(errs)@.len() as int) == old(errs)@,
        r is Err ==> final(errs)@.len() > old(errs)@.len(),
{
    match r {
        Err(e) => {
            errs.push(MeisterError::IO(e));
            assert(final(errs)@.subrange(0, old(errs)@.len() as int) =~= old(errs)@);
            assert(final(results)@.subrange(0, old(results)@.len() as int) =~= old(results)@);
        },
        Ok(items) => {
            let resolved = match read_from_reader(items, parent) {
                Ok(f) => f,
                Err(_) => {
                    assert(false);
                    return ;
                },
            };
            let n = resolved.len();
            let mut i: usize = 0;
            while i < n
                invariant
                    n == resolved@.len(),
                    0 <= i <= n,
                    results@.len() >= old(results)@.len(),
                    errs@.len() >= old(errs)@.len(),
                    results@.subrange(0, old(results)@.len() as int) == old(results)@,
                    errs@.subrange(0, old(errs)@.len() as int) == old(errs)@,
                decreases n - i,
            {
                let ghost mid_results = results@;
                let ghost mid_errs = errs@;
                convert_and_push_item(resolved[i].as_str(), results, errs);
                proof {
                    assert(results@.subrange(0, old(results)@.len() as int)
                        =~= mid_results.subrange(0, old(results)@.len() as int));
                    assert(errs@.subrange(0, old(errs)@.len() as int) =~= mid_errs.subrange(
                        0,
                        old(errs)@.len() as int,
                    ));
                }
                i = i + 1;
            }
        },
    }
}

impl InputOpts {
    /// Resolves the project arguments into the list of scan targets: `-`
    /// reads a project list from standard input, `@file` reads one from the
    /// file and places its names under the file's directory, anything else
    /// names a target itself.  Every argument is settled; when any produced
    /// an error, all errors are reported together; when none did and no
    /// target remains, that is reported instead.
    pub fn projects(&self) -> (r: Result<Vec<String>>)
        ensures
            r is Ok ==> r->Ok_0@.len() > 0,
            r is Err ==> r->Err_0 is Array || r->Err_0 is NoProjectSpecified,
            r is Err && r->Err_0 is Array ==> nonempty_array(r->Err_0),
            self.dirs@.len() == 0 ==> r is Err && r->Err_0 is NoProjectSpecified,
    {
        let mut errs: Vec<MeisterError> = Vec::new();
        let mut result: Vec<String> = Vec::new();
        let n = self.dirs.len();
        let mut i: usize = 0;
        while i < n
            invariant
                n == self.dirs@.len(),
                0 <= i <= n,
                i == 0 ==> result@.len() == 0 && errs@.len() == 0,
            decreases n - i,
        {
            let item = &self.dirs[i];
            if str_is(item.as_str(), "-") {
                push_items_or_errs(Ok(read_stdin_lines()), ".", &mut result, &mut errs);
            } else if item_starts_with_at(item.as_str()) {
                let stripped = strip_first_char(item.as_str());
                let parent = parent_dir(stripped.as_str());
                push_items_or_errs(
                    read_file_lines(stripped.as_str()),
                    parent.as_str(),
                    &mut result,
                    &mut errs,
                );
            } else {
                convert_and_push_item(item.as_str(), &mut result, &mut errs);
            }
            i = i + 1;
        }
        if !errs.is_empty() {
            Err(MeisterError::Array(errs))
        } else if result.is_empty() {
            Err(MeisterError::NoProjectSpecified)
        } else {
            Ok(result)
        }
    }
}

/// Whether `s` equals the literal `t`.
fn str_is(s: &str, t: &str) -> (r: bool)
    ensures
        r == (s@ == t@),
{
    crate::strutil::str_eq(s, t)
}

/// Whether the argument names a project list: it starts with `@`.
fn item_starts_with_at(s: &str) -> (r: bool)
    ensures
        r == (s@.len() > 0 && s@[0] == '@'),
{
    s.unicode_len() > 0 && s.get_char(0) == '@'
}

/// The argument with its first character removed.
fn strip_first_char(s: &str) -> (r: String)
    requires
        s@.len() > 0,
    ensures
        r@ == s@.subrange(1, s@.len() as int),
{
    let n = s.unicode_len();
    s.substring_char(1, n).to_owned()
}

} // verus!
