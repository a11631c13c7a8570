//! The record of what is installed: the release record of the whole set,
//! which stands beside the staging directory, and the version marker in each
//! module's target directory.

use crate::paths::{join, joined, parent, parent_dir};
use crate::text::{decimal, decimal_string};
use crate::versions::{parse_exact, strict_version, Version, VersionError, VersionModel};
use vstd::prelude::*;

verus! {

/// The release record: the version of the installed set, and when it was
/// installed, in seconds since the epoch, written in decimal.
#[derive(Clone, Debug, PartialEq, Eq)]
pub struct Release {
    pub current_version: String,
    pub installed: String,
}

/// A release record as plain values.
pub struct ReleaseModel {
    pub current_version: Seq<char>,
    pub installed: Seq<char>,
}

impl View for Release {
    type V = ReleaseModel;

    open spec fn view(&self) -> ReleaseModel {
        ReleaseModel { current_version: self.current_version@, installed: self.installed@ }
    }
}

/// A file to write: where, and what.
#[derive(Clone, Debug, PartialEq, Eq)]
pub struct FileWrite {
    pub path: String,
    pub content: String,
}

/// The record of `version`, installed at `seconds` since the epoch.
pub open spec fn release_of(version: VersionModel, seconds: u64) -> ReleaseModel {
    ReleaseModel { current_version: version.render(), installed: decimal(seconds as nat) }
}

/// Where the release record of a staging directory stands: in the directory
/// that holds the staging directory. A staging directory that nothing holds
/// (the root, the empty path) has no record.
pub open spec fn record_path(staging_dir: Seq<char>) -> Option<Seq<char>> {
    match parent(staging_dir) {
        Some(p) => Some(joined(p, "current_version.toml"@)),
        None => None,
    }
}

/// Where the version marker of a module stands.
pub open spec fn marker_path(module_dir: Seq<char>) -> Seq<char> {
    joined(module_dir, ".version"@)
}

impl Release {
    /// The record of `version`, installed at `seconds` since the epoch.
    pub fn new(version: &Version, seconds: u64) -> (r: Release)
        ensures
            r@ == release_of(version@, seconds),
    {
        Release { current_version: version.to_string(), installed: decimal_string(seconds) }
    }
}

/// Gives the place of the release record of a staging directory.
pub fn ledger_path(staging_dir: &str) -> (r: Option<String>)
    ensures
        match r {
            Some(p) => record_path(staging_dir@) == Some(p@),
            None => record_path(staging_dir@) is None,
        },
{
    match parent_dir(staging_dir) {
        Some(p) => Some(join(p.as_str(), "current_version.toml")),
        None => None,
    }
}

/// Reads the recorded version out of a release record. Without a record
/// nothing is installed. The recorded text must be a semantic version as it
/// stands.
pub fn get_current_version_from_toml(record: Option<&Release>) -> (r: Result<
    Option<Version>,
    VersionError,
>)
    ensures
        match record {
            None => r matches Ok(None),
            Some(rec) => match strict_version(rec@.current_version) {
                Some(v) => r matches Ok(Some(w)) && w@ == v,
                None => r matches Err(e) && e.input@ == rec@.current_version,
            },
        },
{
    match record {
        None => Ok(None),
        Some(rec) => match parse_exact(rec.current_version.as_str()) {
            Ok(v) => Ok(Some(v)),
            Err(e) => Err(e),
        },
    }
}

/// Says what is written to record `version` as the installed version of the
/// module in `module_dir`: the marker file and the version's canonical text.
pub fn set_current_version(module_dir: &str, version: &Version) -> (w: FileWrite)
    ensures
        w.path@ == marker_path(module_dir@),
        w.content@ == version@.render(),
{
    FileWrite { path: join(module_dir, ".version"), content: version.to_string() }
}

} // verus!
