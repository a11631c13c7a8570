//! The ways in which an update run fails.

use vstd::prelude::*;

verus! {

/// Why an update run stopped.
#[derive(Clone, Debug, PartialEq, Eq)]
pub enum UpdateError {
    ConfigInvalid(String),
    ManifestFetchFailed(String),
    ArtifactDownloadFailed(String),
    ArchiveUnpackFailed(String),
    /// No file of this name lies in the unpacked archive.
    BinaryNotFoundInArchive(String),
    ChecksumMismatch { expected: String, computed: String },
    /// `input` is the text that was refused; `reason` says in words what is
    /// wrong with it.
    VersionParseFailed { input: String, reason: String },
    FilesystemOperationFailed(String),
    LedgerWriteFailed(String),
}

/// An error as plain values. Of a version that did not parse it keeps the
/// text, not the words about it.
pub enum ErrorModel {
    ConfigInvalid(Seq<char>),
    ManifestFetchFailed(Seq<char>),
    ArtifactDownloadFailed(Seq<char>),
    ArchiveUnpackFailed(Seq<char>),
    BinaryNotFoundInArchive(Seq<char>),
    ChecksumMismatch { expected: Seq<char>, computed: Seq<char> },
    VersionParseFailed(Seq<char>),
    FilesystemOperationFailed(Seq<char>),
    LedgerWriteFailed(Seq<char>),
}

impl View for UpdateError {
    type V = ErrorModel;

    open spec fn view(&self) -> ErrorModel {
        match self {
            UpdateError::ConfigInvalid(r) => ErrorModel::ConfigInvalid(r@),
            UpdateError::ManifestFetchFailed(r) => ErrorModel::ManifestFetchFailed(r@),
            UpdateError::ArtifactDownloadFailed(r) => ErrorModel::ArtifactDownloadFailed(r@),
            UpdateError::ArchiveUnpackFailed(r) => ErrorModel::ArchiveUnpackFailed(r@),
            UpdateError::BinaryNotFoundInArchive(b) => ErrorModel::BinaryNotFoundInArchive(b@),
            UpdateError::ChecksumMismatch { expected, computed } => ErrorModel::ChecksumMismatch {
                expected: expected@,
                computed: computed@,
            },
            UpdateError::VersionParseFailed { input, reason } => ErrorModel::VersionParseFailed(
                input@,
            ),
            UpdateError::FilesystemOperationFailed(r) => ErrorModel::FilesystemOperationFailed(r@),
            UpdateError::LedgerWriteFailed(r) => ErrorModel::LedgerWriteFailed(r@),
        }
    }
}


impl UpdateError {
    /// The error in words.
    pub open spec fn text(&self) -> Seq<char> {
        match self {
            UpdateError::ConfigInvalid(r) => r@,
            UpdateError::ManifestFetchFailed(r) => "Failed to fetch or parse manifest: "@ + r@,
            UpdateError::ArtifactDownloadFailed(r) => "Failed to download firmware: "@ + r@,
            UpdateError::ArchiveUnpackFailed(r) => "Failed to unpack archive: "@ + r@,
            UpdateError::BinaryNotFoundInArchive(b) => "Could not find module binary '"@ + b@
                + "' in unpacked archive."@,
            UpdateError::ChecksumMismatch { expected, computed } => "Checksum mismatch\n  Expected: "@
                + expected@ + "\n  Got:      "@ + computed@,
            UpdateError::VersionParseFailed { input, reason } => reason@,
            UpdateError::FilesystemOperationFailed(r) => "Filesystem operation failed: "@ + r@,
            UpdateError::LedgerWriteFailed(r) => "Failed to write version record: "@ + r@,
        }
    }

    /// Says the error in words.
    pub fn message(&self) -> (r: String)
        ensures
            r@ == self.text(),
    {
        match self {
            UpdateError::ConfigInvalid(r) => r.clone(),
            UpdateError::ManifestFetchFailed(r) => {
                let mut m = String::from_str("Failed to fetch or parse manifest: ");
                m.append(r.as_str());
                m
            },
            UpdateError::ArtifactDownloadFailed(r) => {
                let mut m = String::from_str("Failed to download firmware: ");
                m.append(r.as_str());
                m
            },
            UpdateError::ArchiveUnpackFailed(r) => {
                let mut m = String::from_str("Failed to unpack archive: ");
                m.append(r.as_str());
                m
            },
            UpdateError::BinaryNotFoundInArchive(b) => {
                let mut m = String::from_str("Could not find module binary '");
                m.append(b.as_str());
                m.append("' in unpacked archive.");
                m
            },
            UpdateError::ChecksumMismatch { expected, computed } => {
                let mut m = String::from_str("Checksum mismatch\n  Expected: ");
                m.append(expected.as_str());
                m.append("\n  Got:      ");
                m.append(computed.as_str());
                m
            },
            UpdateError::VersionParseFailed { input, reason } => reason.clone(),
            UpdateError::FilesystemOperationFailed(r) => {
                let mut m = String::from_str("Filesystem operation failed: ");
                m.append(r.as_str());
                m
            },
            UpdateError::LedgerWriteFailed(r) => {
                let mut m = String::from_str("Failed to write version record: ");
                m.append(r.as_str());
                m
            },
        }
    }
}

} // verus!
