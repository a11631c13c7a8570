//! The description of one release: the modules to install, their versions
//! and checksums.

use vstd::prelude::*;

verus! {

/// One independently versioned binary of a release. A manifest may also name
/// a retention count for a module; an installation never deletes a release
/// directory, so a module here carries none.
#[derive(Clone, Debug, PartialEq, Eq)]
pub struct Module {
    pub name: String,
    pub version: String,
    /// The file name under which the binary lies somewhere in the archive.
    pub binary: String,
    /// The SHA-256 digest of the binary, in hexadecimal.
    pub checksum: String,
    pub target_dir: String,
    /// Where the link to the active binary stands, if the module has one.
    pub start_command: Option<String>,
}

/// A module as plain values.
pub struct ModuleModel {
    pub name: Seq<char>,
    pub version: Seq<char>,
    pub binary: Seq<char>,
    pub checksum: Seq<char>,
    pub target_dir: Seq<char>,
    pub start_command: Option<Seq<char>>,
}

impl View for Module {
    type V = ModuleModel;

    open spec fn view(&self) -> ModuleModel {
        ModuleModel {
            name: self.name@,
            version: self.version@,
            binary: self.binary@,
            checksum: self.checksum@,
            target_dir: self.target_dir@,
            start_command: match self.start_command {
                Some(s) => Some(s@),
                None => None,
            },
        }
    }
}

/// A release: where its archive is fetched from, the version of the set, and
/// the modules in the order in which they are installed.
#[derive(Clone, Debug, PartialEq, Eq)]
pub struct Manifest {
    pub download_url: String,
    pub version_set: String,
    pub modules: Vec<Module>,
}

/// A manifest as plain values.
pub struct ManifestModel {
    pub download_url: Seq<char>,
    pub version_set: Seq<char>,
    pub modules: Seq<ModuleModel>,
}

impl View for Manifest {
    type V = ManifestModel;

    open spec fn view(&self) -> ManifestModel {
        ManifestModel {
            download_url: self.download_url@,
            version_set: self.version_set@,
            modules: self.modules@.map_values(|m: Module| m@),
        }
    }
}

} // verus!
