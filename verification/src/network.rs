//! What the transport needs to know: where a manifest is fetched from, and
//! where a downloaded artifact is put.

use crate::paths::{file_name, last_segment};
use crate::text::{replace_all, replaced};
use vstd::prelude::*;

verus! {

/// The address from which the manifest behind `endpoint` is fetched: the
/// endpoint with `github.com` replaced by `raw.githubusercontent.com`, and
/// then `/blob/` by `/`, so that a link to a file's page becomes a link to the
/// file.
pub open spec fn raw_address(endpoint: Seq<char>) -> Seq<char> {
    replaced(
        replaced(endpoint, "github.com"@, "raw.githubusercontent.com"@),
        "/blob/"@,
        "/"@,
    )
}

/// Where the artifact of `download_url` is put: below the staging directory,
/// under the name that stands behind the last slash of the address.
pub open spec fn artifact_place(download_url: Seq<char>, staging_dir: Seq<char>) -> Seq<char> {
    staging_dir + "/"@ + last_segment(download_url)
}

/// Gives the address from which the manifest is fetched.
pub fn manifest_url(endpoint: &str) -> (r: String)
    ensures
        r@ == raw_address(endpoint@),
{
    let first = replace_all(endpoint, "github.com", "raw.githubusercontent.com");
    replace_all(first.as_str(), "/blob/", "/")
}

/// Gives the place of the downloaded artifact.
pub fn download_destination(download_url: &str, staging_dir: &str) -> (r: String)
    ensures
        r@ == artifact_place(download_url@, staging_dir@),
{
    let name = file_name(download_url);
    let mut r = String::from_str(staging_dir);
    r.append("/");
    r.append(name.as_str());
    r
}

} // verus!
