//! Archive handling: format detection from the file name's suffix, and the
//! per-format listing of member path names.  No member content is ever
//! extracted to disk.

use vstd::prelude::*;

use crate::strutil::{ends_with, ends_with_lower, lower};
use crate::{MeisterError, Result};

verus! {

/// The archive formats this library can list.
#[derive(Copy, Clone, Debug, PartialEq, Eq, Structural)]
pub enum Format {
    Tar,
    TarGz,
    TarBz2,
    TarXz,
    TarZstd,
    Zip,
}

/// The ordered suffix table: which file-name ending marks which format.
pub open spec fn spec_exts() -> Seq<(Format, Seq<char>)> {
    seq![
        (Format::Tar, ".tar"@),
        (Format::TarGz, ".tar.gz"@),
        (Format::TarGz, ".tgz"@),
        (Format::TarBz2, ".tar.bz2"@),
        (Format::TarBz2, ".tbz2"@),
        (Format::TarXz, ".tar.xz"@),
        (Format::TarXz, ".txz"@),
        (Format::TarZstd, ".tar.zst"@),
        (Format::TarZstd, ".tzst"@),
        (Format::Zip, ".zip"@),
        (Format::Zip, ".jar"@),
        (Format::Zip, ".war"@),
        (Format::Zip, ".ear"@),
    ]
}

/// The first table entry, from position `k` on, whose suffix ends the
/// lower-cased name; `None` when no entry does.
pub open spec fn first_format(name: Seq<char>, k: int) -> Option<Format>
    decreases spec_exts().len() - k,
{
    if k < 0 || k >= spec_exts().len() {
        None
    } else if ends_with(lower(name), spec_exts()[k].1) {
        Some(spec_exts()[k].0)
    } else {
        first_format(name, k + 1)
    }
}

/// The archive format a file name announces: the first suffix of the table
/// that ends the name, compared without regard to ASCII case.
pub open spec fn spec_find_format(name: Seq<char>) -> Option<Format> {
    first_format(name, 0)
}

/// The suffix table as data: each format with the file-name ending that
/// marks it, in table order.
pub fn exts() -> (r: Vec<(Format, String)>)
    ensures
        r@.len() == spec_exts().len(),
        forall|k: int|
            0 <= k < r@.len() ==> (#[trigger] r@[k]).0 == spec_exts()[k].0 && r@[k].1@
                == spec_exts()[k].1,
{
    let r: Vec<(Format, String)> = vec![
        (Format::Tar, ".tar".to_owned()),
        (Format::TarGz, ".tar.gz".to_owned()),
        (Format::TarGz, ".tgz".to_owned()),
        (Format::TarBz2, ".tar.bz2".to_owned()),
        (Format::TarBz2, ".tbz2".to_owned()),
        (Format::TarXz, ".tar.xz".to_owned()),
        (Format::TarXz, ".txz".to_owned()),
        (Format::TarZstd, ".tar.zst".to_owned()),
        (Format::TarZstd, ".tzst".to_owned()),
        (Format::Zip, ".zip".to_owned()),
        (Format::Zip, ".jar".to_owned()),
        (Format::Zip, ".war".to_owned()),
        (Format::Zip, ".ear".to_owned()),
    ];
    r
}

/// Detects the archive format from the file name's suffix; an unrecognised
/// name is refused.
pub fn find_format(path: &str) -> (r: Result<Format>)
    ensures
        r is Ok <==> spec_find_format(path@) is Some,
        r is Ok ==> Some(r->Ok_0) == spec_find_format(path@),
        r is Err ==> r->Err_0 is UnsupportedArchiveFormat
            && r->Err_0->UnsupportedArchiveFormat_0@ == path@,
{
    let table = exts();
    let n = table.len();
    let mut i: usize = 0;
    while i < n
        invariant
            n == table@.len(),
            table@.len() == spec_exts().len(),
            forall|k: int|
                0 <= k < table@.len() ==> (#[trigger] table@[k]).0 == spec_exts()[k].0
                    && table@[k].1@ == spec_exts()[k].1,
            0 <= i <= n,
            spec_find_format(path@) == first_format(path@, i as int),
        decreases n - i,
    {
        if ends_with_lower(path, table[i].1.as_str()) {
            return Ok(table[i].0);
        }
        i = i + 1;
    }
    Err(MeisterError::UnsupportedArchiveFormat(path.to_owned()))
}

/// Whether the file name carries a suffix of the archive table, compared
/// without regard to ASCII case.
pub fn is_supported_archive_format(arg: &str) -> (r: bool)
    ensures
        r == (spec_find_format(arg@) is Some),
{
    find_format(arg).is_ok()
}

/// Lists a plain tar archive.
#[derive(Debug)]
pub struct TarExtractor {}

/// Lists a gzip-compressed tar archive.
#[derive(Debug)]
pub struct TarGzExtractor {}

/// Lists a bzip2-compressed tar archive.
#[derive(Debug)]
pub struct TarBz2Extractor {}

/// Lists an xz-compressed tar archive.
#[derive(Debug)]
pub struct TarXzExtractor {}

/// Lists a zstd-compressed tar archive.
#[derive(Debug)]
pub struct TarZstdExtractor {}

/// Lists a zip archive.
#[derive(Debug)]
pub struct ZipExtractor {}

impl TarExtractor {
    /// Relies on `tar::Archive::entries`: the stored path of each member, in
    /// archive order.  What comes back depends on what is on disk; every
    /// failure is reported as an I/O error.
    #[verifier::external_body]
    pub fn list_entries(&self, archive_file: &str) -> (r: Result<Vec<String>>)
        ensures
            r is Err ==> r->Err_0 is IO,
    {
        let f = fs_err::File::open(archive_file).map_err(|e| MeisterError::IO(e.to_string()))?;
        let mut a = tar::Archive::new(f);
        let mut result = Vec::new();
        for entry in a.entries().map_err(|e| MeisterError::IO(e.to_string()))? {
            let e = entry.map_err(|e| MeisterError::IO(e.to_string()))?;
            let p = e.header().path().map_err(|e| MeisterError::IO(e.to_string()))?;
            result.push(p.display().to_string());
        }
        Ok(result)
    }

    /// The format this extractor reads.
    pub fn format(&self) -> (r: Format)
        ensures
            r == Format::Tar,
    {
        Format::Tar
    }
}

impl TarGzExtractor {
    /// Relies on `flate2::read::GzDecoder` and `tar::Archive::entries`: the
    /// stored path of each member, in archive order; every failure is
    /// reported as an I/O error.
    #[verifier::external_body]
    pub fn list_entries(&self, archive_file: &str) -> (r: Result<Vec<String>>)
        ensures
            r is Err ==> r->Err_0 is IO,
    {
        let f = fs_err::File::open(archive_file).map_err(|e| MeisterError::IO(e.to_string()))?;
        let mut a = tar::Archive::new(flate2::read::GzDecoder::new(f));
        let mut result = Vec::new();
        for entry in a.entries().map_err(|e| MeisterError::IO(e.to_string()))? {
            let e = entry.map_err(|e| MeisterError::IO(e.to_string()))?;
            let p = e.header().path().map_err(|e| MeisterError::IO(e.to_string()))?;
            result.push(p.display().to_string());
        }
        Ok(result)
    }

    /// The format this extractor reads.
    pub fn format(&self) -> (r: Format)
        ensures
            r == Format::TarGz,
    {
        Format::TarGz
    }
}

impl TarBz2Extractor {
    /// Relies on `bzip2::read::BzDecoder` and `tar::Archive::entries`: the
    /// stored path of each member, in archive order; every failure is
    /// reported as an I/O error.
    #[verifier::external_body]
    pub fn list_entries(&self, archive_file: &str) -> (r: Result<Vec<String>>)
        ensures
            r is Err ==> r->Err_0 is IO,
    {
        let f = fs_err::File::open(archive_file).map_err(|e| MeisterError::IO(e.to_string()))?;
        let mut a = tar::Archive::new(bzip2::read::BzDecoder::new(f));
        let mut result = Vec::new();
        for entry in a.entries().map_err(|e| MeisterError::IO(e.to_string()))? {
            let e = entry.map_err(|e| MeisterError::IO(e.to_string()))?;
            let p = e.header().path().map_err(|e| MeisterError::IO(e.to_string()))?;
            result.push(p.display().to_string());
        }
        Ok(result)
    }

    /// The format this extractor reads.
    pub fn format(&self) -> (r: Format)
        ensures
            r == Format::TarBz2,
    {
        Format::TarBz2
    }
}

impl TarXzExtractor {
    /// Relies on `xz2::read::XzDecoder` and `tar::Archive::entries`: the
    /// stored path of each member, in archive order; every failure is
    /// reported as an I/O error.
    #[verifier::external_body]
    pub fn list_entries(&self, archive_file: &str) -> (r: Result<Vec<String>>)
        ensures
            r is Err ==> r->Err_0 is IO,
    {
        let f = fs_err::File::open(archive_file).map_err(|e| MeisterError::IO(e.to_string()))?;
        let mut a = tar::Archive::new(xz2::read::XzDecoder::new(f));
        let mut result = Vec::new();
        for entry in a.entries().map_err(|e| MeisterError::IO(e.to_string()))? {
            let e = entry.map_err(|e| MeisterError::IO(e.to_string()))?;
            let p = e.header().path().map_err(|e| MeisterError::IO(e.to_string()))?;
            result.push(p.display().to_string());
        }
        Ok(result)
    }

    /// The format this extractor reads.
    pub fn format(&self) -> (r: Format)
        ensures
            r == Format::TarXz,
    {
        Format::TarXz
    }
}

impl TarZstdExtractor {
    /// Relies on `zstd::Decoder` and `tar::Archive::entries`: the stored path
    /// of each member, in archive order; every failure is reported as an I/O
    /// error.
    #[verifier::external_body]
    pub fn list_entries(&self, archive_file: &str) -> (r: Result<Vec<String>>)
        ensures
            r is Err ==> r->Err_0 is IO,
    {
        let f = fs_err::File::open(archive_file).map_err(|e| MeisterError::IO(e.to_string()))?;
        let d = zstd::Decoder::new(f).map_err(|e| MeisterError::IO(e.to_string()))?;
        let mut a = tar::Archive::new(d);
        let mut result = Vec::new();
        for entry in a.entries().map_err(|e| MeisterError::IO(e.to_string()))? {
            let e = entry.map_err(|e| MeisterError::IO(e.to_string()))?;
            let p = e.header().path().map_err(|e| MeisterError::IO(e.to_string()))?;
            result.push(p.display().to_string());
        }
        Ok(result)
    }

    /// The format this extractor reads.
    pub fn format(&self) -> (r: Format)
        ensures
            r == Format::TarZstd,
    {
        Format::TarZstd
    }
}

impl ZipExtractor {
    /// Relies on `zip::ZipArchive`: `name_for_index` yields each member's
    /// stored name, in central-directory order; every failure is reported as
    /// an I/O error, or as a fatal error for a nameless member.
    #[verifier::external_body]
    pub fn list_entries(&self, archive_file: &str) -> (r: Result<Vec<String>>)
        ensures
            r is Err ==> r->Err_0 is IO || r->Err_0 is Fatal,
    {
        let f = fs_err::File::open(archive_file).map_err(|e| MeisterError::IO(e.to_string()))?;
        let a = zip::ZipArchive::new(f).map_err(|e| MeisterError::IO(e.to_string()))?;
        let mut result = Vec::new();
        for i in 0..a.len() {
            match a.name_for_index(i) {
                Some(name) => result.push(name.to_string()),
                None => return Err(MeisterError::Fatal("zip entry without a name".to_string())),
            }
        }
        Ok(result)
    }

    /// The format this extractor reads.
    pub fn format(&self) -> (r: Format)
        ensures
            r == Format::Zip,
    {
        Format::Zip
    }
}

/// Detects the archive format of `archive_file` from its suffix and lists the
/// member path names without extracting anything.  A name that carries no
/// recognised suffix is refused, and only such a name is: what a recognised
/// archive yields depends on what is on disk, and its failures are I/O or
/// fatal errors, never an unsupported-format error.
pub fn list_entries(archive_file: &str) -> (r: Result<Vec<String>>)
    ensures
        spec_find_format(archive_file@) is None ==> r is Err && r->Err_0
            is UnsupportedArchiveFormat && r->Err_0->UnsupportedArchiveFormat_0@
            == archive_file@,
        r is Err ==> (r->Err_0 is UnsupportedArchiveFormat <==> spec_find_format(archive_file@)
            is None),
        r is Err ==> r->Err_0 is IO || r->Err_0 is Fatal || r->Err_0 is UnsupportedArchiveFormat,
{
    let format = match find_format(archive_file) {
        Ok(f) => f,
        Err(e) => {
            return Err(e);
        },
    };
    match format {
        Format::Tar => (TarExtractor {}).list_entries(archive_file),
        Format::TarGz => (TarGzExtractor {}).list_entries(archive_file),
        Format::TarBz2 => (TarBz2Extractor {}).list_entries(archive_file),
        Format::TarXz => (TarXzExtractor {}).list_entries(archive_file),
        Format::TarZstd => (TarZstdExtractor {}).list_entries(archive_file),
        Format::Zip => (ZipExtractor {}).list_entries(archive_file),
    }
}

} // verus!
