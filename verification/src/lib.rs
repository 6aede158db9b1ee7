//! BtMeister detects the build tools a software project uses by scanning a
//! directory tree, or the member list of an archive file, for the marker
//! files that characterise each tool (`build.gradle`, `Cargo.toml`, ...).
//!
//! The work happens in three steps: assemble a catalog of build-tool
//! definitions ([`defs::BuildToolDefs`]), build a [`Meister`] from the
//! catalog together with traversal options, and let it scan each target.

pub mod cli;
pub mod defs;
pub mod extractors;
pub mod fmt;
mod fsinfo;
pub mod matcher;
pub mod meister;
pub mod strutil;
pub mod verbose;

use vstd::prelude::*;

pub use defs::{construct, merge_build_tools, BuildToolDef, BuildToolDefs};
pub use extractors::is_supported_archive_format;
pub use meister::{find_bt, find_build_tool, normalize_ignore_types, BuildTool, BuildTools, Meister};

verus! {

/// The errors this library reports.
#[derive(Debug)]
pub enum MeisterError {
    /// Several errors reported together.
    Array(Vec<MeisterError>),
    /// An unrecoverable error.
    Fatal(String),
    /// An I/O failure, described by its message.
    IO(String),
    /// A failure to parse a definition file, described by its message.
    Json(String),
    /// A feature that is not available.
    NotImplemented,
    /// The given path is not a project.
    NotProject(String),
    /// No project was given at all.
    NoProjectSpecified,
    /// The given project path does not exist.
    ProjectNotFound(String),
    /// The given file is not an archive this library can list.
    UnsupportedArchiveFormat(String),
    /// A non-fatal warning raised while walking a directory.
    Warning(String),
}

/// The result type of this library.
pub type Result<T> = core::result::Result<T, MeisterError>;

/// A collection of errors with at least one member.
pub open spec fn nonempty_array(e: MeisterError) -> bool {
    match e {
        MeisterError::Array(es) => es@.len() > 0,
        _ => false,
    }
}

/// The one-line message of an error; a collection of errors yields its
/// members' messages joined by line breaks, in order.
pub open spec fn spec_message(e: MeisterError) -> Seq<char>
    decreases e, 0int,
    via spec_message_decreases
{
    match e {
        MeisterError::Array(errs) => spec_messages(errs@),
        MeisterError::Fatal(m) => "fatal: "@ + m@,
        MeisterError::IO(m) => "io error: "@ + m@,
        MeisterError::Json(m) => "parse error: "@ + m@,
        MeisterError::NotImplemented => "not implemented yet."@,
        MeisterError::NotProject(f) => f@ + ": not project"@,
        MeisterError::NoProjectSpecified => "no project specified."@,
        MeisterError::ProjectNotFound(p) => p@ + ": project not found"@,
        MeisterError::UnsupportedArchiveFormat(f) => f@ + ": unsupported archive format"@,
        MeisterError::Warning(m) => "warning: "@ + m@,
    }
}

#[via_fn]
proof fn spec_message_decreases(e: MeisterError) {
    broadcast use vstd::std_specs::vec::axiom_vec_decreases_to_view;

    match e {
        MeisterError::Array(errs) => {
            assert(decreases_to!(e => errs));
        },
        _ => {},
    }
}

/// The messages of the errors, joined by line breaks, in order.
pub open spec fn spec_messages(errs: Seq<MeisterError>) -> Seq<char>
    decreases errs, 1int,
    via spec_messages_decreases
{
    if errs.len() == 0 {
        Seq::empty()
    } else if errs.len() == 1 {
        spec_message(errs[0])
    } else {
        spec_messages(errs.drop_last()) + "\n"@ + spec_message(errs.last())
    }
}

#[via_fn]
proof fn spec_messages_decreases(errs: Seq<MeisterError>) {
    broadcast use vstd::seq::axiom_seq_index_decreases;
    broadcast use vstd::seq::axiom_seq_subrange_decreases;

    if errs.len() == 1 {
        assert(decreases_to!(errs => errs[0]));
    } else if errs.len() > 1 {
        assert(errs.drop_last() == errs.subrange(0, errs.len() - 1));
        assert(decreases_to!(errs => errs.subrange(0, errs.len() - 1)));
        assert(decreases_to!(errs => errs[errs.len() - 1]));
    }
}

impl MeisterError {
    /// Renders this error as its one-line message; a collection renders as
    /// its members' messages joined by line breaks, in order.
    pub fn message(&self) -> (r: String)
        ensures
            r@ == spec_message(*self),
        decreases *self,
    {
        match self {
            MeisterError::Array(errs) => {
                let mut acc = String::new();
                let n = errs.len();
                let mut i: usize = 0;
                proof {
                    assert(errs@.subrange(0, 0) =~= Seq::<MeisterError>::empty());
                }
                while i < n
                    invariant
                        *self is Array,
                        self->Array_0 == *errs,
                        n == errs@.len(),
                        0 <= i <= n,
                        acc@ == spec_messages(errs@.subrange(0, i as int)),
                    decreases n - i,
                {
                    let ghost next = errs@.subrange(0, i as int + 1);
                    proof {
                        broadcast use vstd::seq::axiom_seq_index_decreases;
                        broadcast use vstd::std_specs::vec::axiom_vec_decreases_to_view;

                        assert(decreases_to!(*self => *errs));
                        assert(decreases_to!(*errs => errs@));
                        assert(decreases_to!(errs@ => errs@[i as int]));
                        assert(next.drop_last() =~= errs@.subrange(0, i as int));
                        assert(next.last() == errs@[i as int]);
                    }
                    let m = errs[i].message();
                    if i != 0 {
                        acc.append("\n");
                    }
                    acc.append(m.as_str());
                    proof {
                        if i == 0 {
                            assert(next.len() == 1);
                            assert(acc@ == spec_message(errs@[0]));
                        }
                        assert(acc@ =~= spec_messages(next));
                    }
                    i = i + 1;
                }
                proof {
                    assert(errs@.subrange(0, n as int) =~= errs@);
                }
                acc
            },
            MeisterError::Fatal(m) => prefixed("fatal: ", m),
            MeisterError::IO(m) => prefixed("io error: ", m),
            MeisterError::Json(m) => prefixed("parse error: ", m),
            MeisterError::NotImplemented => "not implemented yet.".to_owned(),
            MeisterError::NotProject(f) => suffixed(f, ": not project"),
            MeisterError::NoProjectSpecified => "no project specified.".to_owned(),
            MeisterError::ProjectNotFound(p) => suffixed(p, ": project not found"),
            MeisterError::UnsupportedArchiveFormat(f) => suffixed(f, ": unsupported archive format"),
            MeisterError::Warning(m) => prefixed("warning: ", m),
        }
    }
}

/// The label followed by the detail.
fn prefixed(label: &str, detail: &String) -> (r: String)
    ensures
        r@ == label@ + detail@,
{
    let mut acc = label.to_owned();
    acc.append(detail.as_str());
    acc
}

/// The subject followed by the explanation.
fn suffixed(subject: &String, label: &str) -> (r: String)
    ensures
        r@ == subject@ + label@,
{
    let mut acc = subject.clone();
    acc.append(label);
    acc
}

/// The verbosity levels of the logging the command-line front end offers.
#[derive(Copy, Clone, PartialEq, Eq, Structural, Debug)]
pub enum LogLevel {
    ERROR,
    WARN,
    INFO,
    DEBUG,
    TRACE,
}

impl LogLevel {
    /// The name of the level, as the command line spells it.
    pub fn to_string(&self) -> (r: String)
        ensures
            r@ == match *self {
                LogLevel::ERROR => "error"@,
                LogLevel::WARN => "warn"@,
                LogLevel::INFO => "info"@,
                LogLevel::DEBUG => "debug"@,
                LogLevel::TRACE => "trace"@,
            },
    {
        match *self {
            LogLevel::ERROR => "error".to_owned(),
            LogLevel::WARN => "warn".to_owned(),
            LogLevel::INFO => "info".to_owned(),
            LogLevel::DEBUG => "debug".to_owned(),
            LogLevel::TRACE => "trace".to_owned(),
        }
    }
}

/// The traversal filters that a directory scan can enable, mirroring the
/// common version-control ignore mechanisms.
#[derive(Copy, Clone, PartialEq, Eq, Structural, Debug)]
pub enum IgnoreType {
    /// Shorthand for `Ignore`, `GitIgnore`, `GitGlobal`, and `GitExclude` together.
    Default,
    /// Skip hidden entries.
    Hidden,
    /// Honour `.ignore` files.
    Ignore,
    /// Honour `.gitignore` files.
    GitIgnore,
    /// Honour the global git ignore file.
    GitGlobal,
    /// Honour `.git/info/exclude` files.
    GitExclude,
}

impl IgnoreType {
    /// The name of the ignore type, as the command line spells it.
    pub fn to_string(&self) -> (r: String)
        ensures
            r@ == match *self {
                IgnoreType::Default => "default"@,
                IgnoreType::Hidden => "hidden"@,
                IgnoreType::Ignore => "ignore"@,
                IgnoreType::GitIgnore => "gitignore"@,
                IgnoreType::GitGlobal => "gitglobal"@,
                IgnoreType::GitExclude => "gitexclude"@,
            },
    {
        match *self {
            IgnoreType::Default => "default".to_owned(),
            IgnoreType::Hidden => "hidden".to_owned(),
            IgnoreType::Ignore => "ignore".to_owned(),
            IgnoreType::GitIgnore => "gitignore".to_owned(),
            IgnoreType::GitGlobal => "gitglobal".to_owned(),
            IgnoreType::GitExclude => "gitexclude".to_owned(),
        }
    }
}

} // verus!
