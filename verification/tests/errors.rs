use ota_update::error::UpdateError;
use ota_update::versions::{parse_version, should_install, VersionError};

#[test]
fn errors_are_said_in_words() {
    let text = |s: &str| s.to_string();
    let cases = [
        (UpdateError::ConfigInvalid(text("Invalid staging dir")), "Invalid staging dir"),
        (
            UpdateError::ManifestFetchFailed(text("HTTP status 404")),
            "Failed to fetch or parse manifest: HTTP status 404",
        ),
        (
            UpdateError::ArtifactDownloadFailed(text("connection reset")),
            "Failed to download firmware: connection reset",
        ),
        (UpdateError::ArchiveUnpackFailed(text("not a gzip file")), "Failed to unpack archive: not a gzip file"),
        (
            UpdateError::BinaryNotFoundInArchive(text("tool")),
            "Could not find module binary 'tool' in unpacked archive.",
        ),
        (
            UpdateError::ChecksumMismatch { expected: text("aa"), computed: text("bb") },
            "Checksum mismatch\n  Expected: aa\n  Got:      bb",
        ),
        (
            UpdateError::VersionParseFailed {
                input: text("1.0"),
                reason: text("Invalid new version string: unexpected end of input"),
            },
            "Invalid new version string: unexpected end of input",
        ),
        (
            UpdateError::FilesystemOperationFailed(text("permission denied")),
            "Filesystem operation failed: permission denied",
        ),
        (UpdateError::LedgerWriteFailed(text("disk full")), "Failed to write version record: disk full"),
    ];
    for (error, expected) in cases {
        assert_eq!(error.message(), expected);
    }
}

#[test]
fn a_bad_version_is_said_to_be_an_invalid_new_version_string() {
    let e = VersionError { input: "1.0".to_string(), reason: "unexpected end of input".to_string() };
    assert_eq!(e.message(), "Invalid new version string: unexpected end of input");

    let e = should_install("invalid", None).unwrap_err();
    assert!(e.message().starts_with("Invalid new version string: "));
    assert_eq!(e.message(), format!("Invalid new version string: {}", e.reason));
    assert_eq!(
        e.message(),
        "Invalid new version string: unexpected character 'i' while parsing major version number"
    );

    let e = parse_version("").unwrap_err();
    assert_eq!(e.message(), "Invalid new version string: empty string, expected a semver version");
}
