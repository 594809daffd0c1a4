//! Trusted boundary to the outside world: the on-disk artifact cache
//! (`binary_install`) and the executable search path (`which`).
//!
//! Every function here is believed, not verified; each doc comment names the
//! outside function it relies on. All results that depend on the machine
//! (what is on the search path, what is cached on disk, whether the network
//! answers) are handed back as plain values for verified code to decide on.

use vstd::prelude::*;

verus! {

use crate::text::suffix_of;

#[verifier::external_type_specification]
#[verifier::external_body]
pub struct ExCache(binary_install::Cache);

#[verifier::external_type_specification]
#[verifier::external_body]
pub struct ExDownload(binary_install::Download);

#[verifier::external_type_specification]
#[verifier::external_body]
pub struct ExAnyhowError(anyhow::Error);

/// A hard failure while obtaining a tool: downloading or unpacking broke, or
/// the expected executable was missing from the artifact. The three normal
/// "tool absent by design" outcomes are never reported here.
pub enum ToolkitError {
    /// Downloading or unpacking an artifact failed.
    Download(anyhow::Error),
    /// The named executable could not be extracted from the artifact.
    Binary(anyhow::Error),
}

/// Relies on `which::which`: searches the process's executable search path
/// and returns the first matching path. Any lookup failure is reported as a
/// miss, as a missing tool feeds the download fallback. The result depends
/// on the environment, so nothing is promised of it.
#[verifier::external_body]
pub(crate) fn which_lookup(name: &str) -> (r: Option<String>) {
    match which::which(name) {
        Ok(path) => Some(path.to_string_lossy().into_owned()),
        Err(_) => None,
    }
}

/// Relies on `binary_install::Cache::download`: returns the already-cached
/// artifact if one exists; otherwise, when `install_permitted` is true,
/// downloads from `url` and unpacks; otherwise returns `Ok(None)` without
/// touching the network. Transport and unpacking failures come back as
/// `Err`. The source panics on a URL that names neither a tarball nor a zip
/// archive, so such URLs are excluded. The result depends on the disk and
/// the network, so nothing is promised of it.
#[verifier::external_body]
pub(crate) fn cache_download(
    cache: &binary_install::Cache,
    install_permitted: bool,
    name: &str,
    url: &str,
) -> (r: Result<Option<binary_install::Download>, anyhow::Error>)
    requires
        suffix_of(url@, ".tar.gz"@) || suffix_of(url@, ".zip"@),
{
    cache.download(install_permitted, name, &[name], url)
}

/// Relies on `binary_install::Download::binary`: returns the path of the
/// named executable inside the unpacked artifact, or an error when no such
/// executable file exists there. The result depends on the disk, so nothing
/// is promised of it.
#[verifier::external_body]
pub(crate) fn download_binary(
    download: &binary_install::Download,
    name: &str,
) -> (r: Result<String, anyhow::Error>) {
    match download.binary(name) {
        Ok(path) => Ok(path.to_string_lossy().into_owned()),
        Err(e) => Err(e),
    }
}

} // verus!
