//! Filesystem probing.
//!
//! The resolver's only questions to the filesystem are: does this path
//! canonicalize, to what, and is the result a regular file or a
//! directory. The answers depend on the state of the disk, so the
//! std calls behind them are trusted with no promise about their
//! results; everything the resolver concludes from an answer is proved
//! for every possible answer.

use std::path::Path;
use vstd::prelude::*;

verus! {

/// Why canonicalization failed.
#[derive(Debug, Clone, PartialEq, Eq)]
pub enum CanonError {
    /// The path names nothing on disk.
    NotFound,
    /// Some other failure, such as a permission error; carries the
    /// description reported by the operating system.
    Other(String),
}

/// The outcome of probing one path string.
#[derive(Debug, Clone, PartialEq, Eq)]
pub enum FsProbe {
    /// The path canonicalizes and names a regular file; carries the
    /// canonical path.
    FoundFile(String),
    /// The path canonicalizes and names a directory.
    FoundDir(String),
    /// The path canonicalizes but names neither a regular file nor a
    /// directory.
    FoundOther(String),
    /// The path names nothing on disk.
    Missing,
    /// Canonicalization failed for another reason; carries the
    /// description.
    Failed(String),
}

/// Mathematical image of an [`FsProbe`].
pub enum ProbeSnap {
    FoundFile(Seq<char>),
    FoundDir(Seq<char>),
    FoundOther(Seq<char>),
    Missing,
    Failed(Seq<char>),
}

impl View for FsProbe {
    type V = ProbeSnap;

    open spec fn view(&self) -> ProbeSnap {
        match self {
            FsProbe::FoundFile(p) => ProbeSnap::FoundFile(p@),
            FsProbe::FoundDir(p) => ProbeSnap::FoundDir(p@),
            FsProbe::FoundOther(p) => ProbeSnap::FoundOther(p@),
            FsProbe::Missing => ProbeSnap::Missing,
            FsProbe::Failed(d) => ProbeSnap::Failed(d@),
        }
    }
}

/// Relies on `std::path::Path::canonicalize`: returns the canonical,
/// absolute form of an existing path, resolving symbolic links, and an
/// `io::Error` otherwise; the error kind is `NotFound` exactly when a
/// component of the path does not exist. The canonical path is carried
/// over lossily as a string. The outcome depends on the disk, so
/// nothing is promised of it.
#[verifier::external_body]
fn canonicalize_str(s: &str) -> Result<String, CanonError> {
    match Path::new(s).canonicalize() {
        Ok(p) => Ok(p.to_string_lossy().into_owned()),
        Err(e) => {
            if e.kind() == std::io::ErrorKind::NotFound {
                Err(CanonError::NotFound)
            } else {
                Err(CanonError::Other(e.to_string()))
            }
        },
    }
}

/// Relies on `std::path::Path::is_file`: true exactly when the path
/// exists and names a regular file. The outcome depends on the disk,
/// so nothing is promised of it.
#[verifier::external_body]
fn is_file_str(s: &str) -> bool {
    Path::new(s).is_file()
}

/// Relies on `std::path::Path::is_dir`: true exactly when the path
/// exists and names a directory. The outcome depends on the disk, so
/// nothing is promised of it.
#[verifier::external_body]
fn is_dir_str(s: &str) -> bool {
    Path::new(s).is_dir()
}

/// Probe one path string: canonicalize it and classify what the
/// canonical path names. The answer is a plain value; the resolver's
/// decisions are verified for every possible answer.
pub fn probe_path(s: &String) -> FsProbe {
    match canonicalize_str(s.as_str()) {
        Ok(c) => {
            if is_file_str(c.as_str()) {
                FsProbe::FoundFile(c)
            } else if is_dir_str(c.as_str()) {
                FsProbe::FoundDir(c)
            } else {
                FsProbe::FoundOther(c)
            }
        },
        Err(CanonError::NotFound) => FsProbe::Missing,
        Err(CanonError::Other(d)) => FsProbe::Failed(d),
    }
}

} // verus!
