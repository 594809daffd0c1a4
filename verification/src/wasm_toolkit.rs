//! The known WebAssembly binary toolkits and their resolution: find a tool on
//! the local search path, or obtain a precompiled artifact for the host
//! platform from the artifact cache, downloading it only when permitted.

use vstd::prelude::*;

verus! {

use crate::executor::{plan_ok, plan_transforms, RunPlan};
use crate::fetch::{cache_download, download_binary, which_lookup, ToolkitError};
use crate::platform::{identify, supported_target, HostArch, HostOs, PlatformTarget};
use crate::text::{lemma_suffix_of_concat, suffix_of};

/// wasm toolkits from upstream WebAssembly/binaryen.
#[derive(Clone, Copy, PartialEq, Eq, Structural, Debug)]
pub enum Toolkit {
    /// Loads WebAssembly and runs Binaryen IR passes on it
    WasmOpt,
    /// Un-assembles WebAssembly in binary format into text format
    WasmDis,
}

/// Possible results of `find_exec`. `Found` always carries the path of an
/// executable that was seen on the search path or extracted from a completed
/// download; the two other outcomes never carry a path.
#[derive(Debug)]
pub enum FindExec {
    /// Couldn't install the tool because downloads are forbidden
    CannotInstall,
    /// The current platform doesn't support precompiled binaries
    PlatformNotSupported,
    /// We found the tool at the specified path
    Found(String),
}

impl Toolkit {
    /// The canonical executable name of this toolkit.
    pub open spec fn name_spec(&self) -> Seq<char> {
        match self {
            Toolkit::WasmOpt => "wasm-opt"@,
            Toolkit::WasmDis => "wasm-dis"@,
        }
    }

    /// Returns the canonical executable name of this toolkit.
    pub fn name(&self) -> (r: &'static str)
        ensures
            r@ == self.name_spec(),
    {
        match self {
            Toolkit::WasmOpt => "wasm-opt",
            Toolkit::WasmDis => "wasm-dis",
        }
    }

    /// The fixed upstream release version the toolkit is pinned to.
    pub open spec fn version_spec(&self) -> Seq<char> {
        "version_78"@
    }

    /// Returns the fixed upstream release version of this toolkit.
    pub fn version(&self) -> (r: &'static str)
        ensures
            r@ == self.version_spec(),
    {
        "version_78"
    }

    /// The download URL of the precompiled artifact: the fixed release-asset
    /// naming convention with the version and the platform token substituted.
    pub open spec fn download_url_spec(&self, target: PlatformTarget) -> Seq<char> {
        "https://github.com/WebAssembly/binaryen/releases/download/"@ + self.version_spec()
            + "/binaryen-"@ + self.version_spec() + "-"@ + target.token_spec() + ".tar.gz"@
    }

    /// Builds the download URL of this toolkit's artifact for `target`.
    pub fn download_url(&self, target: PlatformTarget) -> (r: String)
        ensures
            r@ == self.download_url_spec(target),
            suffix_of(r@, ".tar.gz"@),
    {
        let mut url = String::new();
        url.append("https://github.com/WebAssembly/binaryen/releases/download/");
        url.append(self.version());
        url.append("/binaryen-");
        url.append(self.version());
        url.append("-");
        url.append(target.token());
        url.append(".tar.gz");
        proof {
            assert(url@ =~= self.download_url_spec(target));
            lemma_suffix_of_concat(url@.subrange(0, url@.len() - ".tar.gz"@.len()), ".tar.gz"@);
            assert(url@.subrange(0, url@.len() - ".tar.gz"@.len()) + ".tar.gz"@ =~= url@);
        }
        url
    }

    /// Attempts to find the tool in the executable search path locally, or
    /// failing that obtains a precompiled binary through the artifact cache.
    ///
    /// On an unsupported platform the outcome is never an error and never
    /// `CannotInstall`: the tool is either found locally or reported as
    /// unsupported. On a supported platform the outcome is never
    /// `PlatformNotSupported`.
    pub fn find_exec(
        &self,
        cache: &binary_install::Cache,
        os: HostOs,
        arch: HostArch,
        install_permitted: bool,
    ) -> (r: Result<FindExec, ToolkitError>)
        ensures
            supported_target(os, arch) is None ==> !(r matches Err(_)) && !(r matches Ok(
                FindExec::CannotInstall,
            )),
            supported_target(os, arch) is Some ==> !(r matches Ok(FindExec::PlatformNotSupported)),
    {
        let local = which_lookup(self.name());
        self.resolve_with_local(cache, local, os, arch, install_permitted)
    }

    /// Resolution once the local search path has answered: a local hit is
    /// authoritative whatever the install-permission flag says; otherwise the
    /// platform decides whether a download can even be attempted.
    pub fn resolve_with_local(
        &self,
        cache: &binary_install::Cache,
        local: Option<String>,
        os: HostOs,
        arch: HostArch,
        install_permitted: bool,
    ) -> (r: Result<FindExec, ToolkitError>)
        ensures
            local matches Some(path) ==> r == Ok::<FindExec, ToolkitError>(FindExec::Found(path)),
            local is None && supported_target(os, arch) is None ==> r == Ok::<
                FindExec,
                ToolkitError,
            >(FindExec::PlatformNotSupported),
            supported_target(os, arch) is Some ==> !(r matches Ok(FindExec::PlatformNotSupported)),
            local is None && supported_target(os, arch) is None ==> !(r matches Err(_)),
    {
        if let Some(path) = local {
            return Ok(FindExec::Found(path));
        }
        let target = match identify(os, arch) {
            Some(target) => target,
            None => {
                return Ok(FindExec::PlatformNotSupported);
            },
        };
        let url = self.download_url(target);
        match cache_download(cache, false, self.name(), url.as_str()) {
            Ok(first) => self.settle_download(cache, first, install_permitted, &url),
            Err(e) => Err(ToolkitError::Download(e)),
        }
    }

    /// Resolution once the policy-gated first cache query has answered. With
    /// `first` absent and installation not permitted, the outcome is exactly
    /// `CannotInstall`: no download is attempted. With `first` present, the
    /// artifact is already on disk and the outcome is never `CannotInstall`.
    pub fn settle_download(
        &self,
        cache: &binary_install::Cache,
        first: Option<binary_install::Download>,
        install_permitted: bool,
        url: &String,
    ) -> (r: Result<FindExec, ToolkitError>)
        requires
            suffix_of(url@, ".tar.gz"@),
        ensures
            first is None && !install_permitted ==> r == Ok::<FindExec, ToolkitError>(
                FindExec::CannotInstall,
            ),
            first is Some ==> !(r matches Ok(FindExec::CannotInstall)),
            !(r matches Ok(FindExec::PlatformNotSupported)),
    {
        let dl = match first {
            Some(dl) => dl,
            None => {
                if !install_permitted {
                    return Ok(FindExec::CannotInstall);
                }
                match cache_download(cache, true, self.name(), url.as_str()) {
                    Ok(second) => {
                        return self.install_outcome(second);
                    },
                    Err(e) => {
                        return Err(ToolkitError::Download(e));
                    },
                }
            },
        };
        self.extract(&dl)
    }

    /// Outcome of a permitted install attempt that did not itself fail: a
    /// missing artifact (the asset is not published for this version and
    /// platform) is exactly `CannotInstall`; a present artifact yields the
    /// extracted binary or an extraction error, never `CannotInstall`. A
    /// failed download never reaches this point: it propagates as an error.
    pub fn install_outcome(&self, attempted: Option<binary_install::Download>) -> (r: Result<
        FindExec,
        ToolkitError,
    >)
        ensures
            attempted is None ==> r == Ok::<FindExec, ToolkitError>(FindExec::CannotInstall),
            attempted is Some ==> (r matches Ok(f) ==> f matches FindExec::Found(_)),
            attempted is Some ==> (r matches Err(e) ==> e matches ToolkitError::Binary(_)),
            !(r matches Ok(FindExec::PlatformNotSupported)),
    {
        match attempted {
            Some(dl) => self.extract(&dl),
            None => Ok(FindExec::CannotInstall),
        }
    }

    /// Extracts this toolkit's binary from an artifact that is on disk.
    fn extract(&self, dl: &binary_install::Download) -> (r: Result<FindExec, ToolkitError>)
        ensures
            r matches Ok(f) ==> f matches FindExec::Found(_),
            r matches Err(e) ==> e matches ToolkitError::Binary(_),
    {
        match download_binary(dl, self.name()) {
            Ok(path) => Ok(FindExec::Found(path)),
            Err(e) => Err(ToolkitError::Binary(e)),
        }
    }

    /// Resolves the tool and plans its run over `files`: one invocation per
    /// `wasm` file. A tool that cannot be obtained for a normal reason gives
    /// a skip, not an error; a broken download or extraction is an error.
    pub fn run(
        &self,
        cache: &binary_install::Cache,
        files: &Vec<String>,
        extra: &Vec<String>,
        os: HostOs,
        arch: HostArch,
        install_permitted: bool,
    ) -> (r: Result<RunPlan, ToolkitError>)
        ensures
            supported_target(os, arch) is None ==> !(r matches Err(_)) && !(r matches Ok(
                RunPlan::SkipCannotInstall,
            )),
            supported_target(os, arch) is Some ==> !(r matches Ok(
                RunPlan::SkipPlatformNotSupported,
            )),
            r matches Ok(RunPlan::Transforms(ts)) ==> (exists|exec: Seq<char>|
                plan_ok(ts@, exec, files@, extra@)),
    {
        let found = match self.find_exec(cache, os, arch, install_permitted) {
            Ok(found) => found,
            Err(e) => {
                return Err(e);
            },
        };
        Ok(self.plan_run(found, files, extra))
    }

    /// Plans the run of an already-resolved tool: a found tool yields one
    /// transform per matching file, and each of the two "absent by design"
    /// outcomes yields its skip.
    pub fn plan_run(&self, resolution: FindExec, files: &Vec<String>, extra: &Vec<String>) -> (r:
        RunPlan)
        ensures
            resolution matches FindExec::Found(path) ==> (r matches RunPlan::Transforms(ts)
                && plan_ok(ts@, path@, files@, extra@)),
            resolution is CannotInstall ==> r is SkipCannotInstall,
            resolution is PlatformNotSupported ==> r is SkipPlatformNotSupported,
    {
        match resolution {
            FindExec::Found(path) => RunPlan::Transforms(plan_transforms(&path, files, extra)),
            FindExec::CannotInstall => RunPlan::SkipCannotInstall,
            FindExec::PlatformNotSupported => RunPlan::SkipPlatformNotSupported,
        }
    }
}

} // verus!
