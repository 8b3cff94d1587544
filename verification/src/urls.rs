//! Every URL the manager requests, derived from the release tag or runtime
//! version alone.

use vstd::prelude::*;
use vstd::string::*;

verus! {

/// The release-metadata endpoint for one tag.
pub open spec fn spec_release_tag_url(tag: Seq<char>) -> Seq<char> {
    "https://api.github.com/repos/duck-compiler/duckc/releases/tags/"@ + tag
}

/// URL of the release-metadata endpoint for `tag`.
pub fn release_tag_url(tag: &str) -> (r: String)
    ensures
        r@ == spec_release_tag_url(tag@),
{
    "https://api.github.com/repos/duck-compiler/duckc/releases/tags/".to_owned().concat(tag)
}

/// URL of the "latest release" endpoint.
pub fn latest_release_url() -> (r: String)
    ensures
        r@ == "https://api.github.com/repos/duck-compiler/duckc/releases/latest"@,
{
    "https://api.github.com/repos/duck-compiler/duckc/releases/latest".to_owned()
}

/// URL of the "most recent releases, limit 1" listing endpoint.
pub fn release_list_url() -> (r: String)
    ensures
        r@ == "https://api.github.com/repos/duck-compiler/duckc/releases?per_page=1"@,
{
    "https://api.github.com/repos/duck-compiler/duckc/releases?per_page=1".to_owned()
}

/// The source-archive URL for one tag.
pub open spec fn spec_source_archive_url(tag: Seq<char>) -> Seq<char> {
    "https://github.com/duck-compiler/duckc/archive/refs/tags/"@ + tag + ".tar.gz"@
}

/// URL of the gzipped source archive for `tag`.
pub fn source_archive_url(tag: &str) -> (r: String)
    ensures
        r@ == spec_source_archive_url(tag@),
{
    "https://github.com/duck-compiler/duckc/archive/refs/tags/".to_owned().concat(tag).concat(
        ".tar.gz",
    )
}

/// The runtime-bundle download URL for one archive filename.
pub open spec fn spec_runtime_download_url(filename: Seq<char>) -> Seq<char> {
    "https://go.dev/dl/"@ + filename
}

/// URL of a runtime-bundle archive on the runtime host.
pub fn runtime_download_url(filename: &str) -> (r: String)
    ensures
        r@ == spec_runtime_download_url(filename@),
{
    "https://go.dev/dl/".to_owned().concat(filename)
}

} // verus!
