//! What the file system says of a path right now.  Every answer depends on
//! what is on disk, so nothing more is promised of these calls.

use vstd::prelude::*;

verus! {

/// Relies on `std::path::Path::exists`: whether the path exists right now.
#[verifier::external_body]
pub(crate) fn path_exists(p: &str) -> bool {
    std::path::Path::new(p).exists()
}

/// Relies on `std::path::Path::is_file`: whether the path names a regular
/// file right now.
#[verifier::external_body]
pub(crate) fn path_is_file(p: &str) -> bool {
    std::path::Path::new(p).is_file()
}

/// Relies on `std::path::Path::is_dir`: whether the path names a directory
/// right now.
#[verifier::external_body]
pub(crate) fn path_is_dir(p: &str) -> bool {
    std::path::Path::new(p).is_dir()
}

} // verus!
