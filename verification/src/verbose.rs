//! A simple logging switch: one verboser prints what it is given, the other
//! swallows it.

use vstd::prelude::*;

use std::io::Write;

verus! {

/// Relies on `std::io::Stdout` and `writeln`: prints one line to standard
/// output.
#[verifier::external_body]
fn print_line(msg: &str) {
    let _ = writeln!(std::io::stdout(), "{}", msg);
}

/// Relies on `std::io::Stderr` and `writeln`: prints one line to standard
/// error.
#[verifier::external_body]
fn eprint_line(msg: &str) {
    let _ = writeln!(std::io::stderr(), "{}", msg);
}

/// The logging switch: either prints or stays silent.
#[derive(Copy, Clone, PartialEq, Eq, Structural, Debug)]
pub enum Verboser {
    /// Swallows every message.
    NoVerbose,
    /// Prints log messages to standard output and error messages to
    /// standard error.
    VerboseImpl,
}

impl Verboser {
    /// Prints the message as a log line, or swallows it.
    pub fn log(&mut self, msg: &str)
        ensures
            *final(self) == *old(self),
    {
        match *self {
            Verboser::VerboseImpl => print_line(msg),
            Verboser::NoVerbose => {},
        }
    }

    /// Prints the message as an error line, or swallows it.
    pub fn elog(&mut self, msg: &str)
        ensures
            *final(self) == *old(self),
    {
        match *self {
            Verboser::VerboseImpl => eprint_line(msg),
            Verboser::NoVerbose => {},
        }
    }

    /// The name of this verboser.
    pub fn name(&self) -> (r: String)
        ensures
            r@ == match *self {
                Verboser::NoVerbose => "NoVerbose"@,
                Verboser::VerboseImpl => "VerboseImpl"@,
            },
    {
        match *self {
            Verboser::NoVerbose => "NoVerbose".to_owned(),
            Verboser::VerboseImpl => "VerboseImpl".to_owned(),
        }
    }
}

/// The verboser that prints when `verbose` holds, and the silent one
/// otherwise.
pub fn new(verbose: bool) -> (r: Verboser)
    ensures
        verbose ==> r == Verboser::VerboseImpl,
        !verbose ==> r == Verboser::NoVerbose,
{
    if verbose {
        Verboser::VerboseImpl
    } else {
        none()
    }
}

/// The verboser that swallows everything.
pub fn none() -> (r: Verboser)
    ensures
        r == Verboser::NoVerbose,
{
    Verboser::NoVerbose
}

} // verus!
