//! Classification of the host (OS, CPU architecture) pair into one of the
//! supported download targets.

use vstd::prelude::*;

verus! {

/// Operating system of the host, as read once from the environment.
#[derive(Clone, Copy, PartialEq, Eq, Structural, Debug)]
pub enum HostOs {
    Linux,
    MacOs,
    Windows,
    Other,
}

/// CPU architecture of the host, as read once from the environment.
#[derive(Clone, Copy, PartialEq, Eq, Structural, Debug)]
pub enum HostArch {
    X86_64,
    Other,
}

/// One of the supported download targets, each with a fixed token used in
/// download URL construction.
#[derive(Clone, Copy, PartialEq, Eq, Structural, Debug)]
pub enum PlatformTarget {
    X86_64Linux,
    X86_64AppleDarwin,
    X86_64Windows,
}

/// The supported (OS, architecture) pairs and their targets; every other
/// pair is unsupported.
pub open spec fn supported_target(os: HostOs, arch: HostArch) -> Option<PlatformTarget> {
    match (os, arch) {
        (HostOs::Linux, HostArch::X86_64) => Some(PlatformTarget::X86_64Linux),
        (HostOs::MacOs, HostArch::X86_64) => Some(PlatformTarget::X86_64AppleDarwin),
        (HostOs::Windows, HostArch::X86_64) => Some(PlatformTarget::X86_64Windows),
        _ => None,
    }
}

/// A pair is supported exactly when it is one of the three fixed pairs.
pub open spec fn is_supported_pair(os: HostOs, arch: HostArch) -> bool {
    arch == HostArch::X86_64 && (os == HostOs::Linux || os == HostOs::MacOs
        || os == HostOs::Windows)
}

/// Maps the host pair to its download target, or reports that the pair is
/// unsupported. Total over all pairs; no side effects.
pub fn identify(os: HostOs, arch: HostArch) -> (r: Option<PlatformTarget>)
    ensures
        r == supported_target(os, arch),
{
    match (os, arch) {
        (HostOs::Linux, HostArch::X86_64) => Some(PlatformTarget::X86_64Linux),
        (HostOs::MacOs, HostArch::X86_64) => Some(PlatformTarget::X86_64AppleDarwin),
        (HostOs::Windows, HostArch::X86_64) => Some(PlatformTarget::X86_64Windows),
        _ => None,
    }
}

/// Law: classification is total. Every supported pair has exactly one
/// target, and every other pair is reported as unsupported.
pub proof fn lemma_classification_total(os: HostOs, arch: HostArch)
    ensures
        is_supported_pair(os, arch) <==> (supported_target(os, arch) is Some),
        forall|t1: PlatformTarget, t2: PlatformTarget|
            supported_target(os, arch) == Some(t1) && supported_target(os, arch) == Some(t2)
                ==> t1 == t2,
{
}

impl PlatformTarget {
    /// The fixed string token of this target, as it appears in download URLs.
    pub open spec fn token_spec(&self) -> Seq<char> {
        match self {
            PlatformTarget::X86_64Linux => "x86_64-linux"@,
            PlatformTarget::X86_64AppleDarwin => "x86_64-apple-darwin"@,
            PlatformTarget::X86_64Windows => "x86_64-windows"@,
        }
    }

    /// Returns the fixed string token of this target.
    pub fn token(&self) -> (r: &'static str)
        ensures
            r@ == self.token_spec(),
    {
        match self {
            PlatformTarget::X86_64Linux => "x86_64-linux",
            PlatformTarget::X86_64AppleDarwin => "x86_64-apple-darwin",
            PlatformTarget::X86_64Windows => "x86_64-windows",
        }
    }
}

} // verus!
