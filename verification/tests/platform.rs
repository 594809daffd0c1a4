use wasm_toolkit::platform::{identify, HostArch, HostOs, PlatformTarget};

#[test]
fn supported_pairs_have_exactly_one_target() {
    assert!(matches!(
        identify(HostOs::Linux, HostArch::X86_64),
        Some(PlatformTarget::X86_64Linux)
    ));
    assert!(matches!(
        identify(HostOs::MacOs, HostArch::X86_64),
        Some(PlatformTarget::X86_64AppleDarwin)
    ));
    assert!(matches!(
        identify(HostOs::Windows, HostArch::X86_64),
        Some(PlatformTarget::X86_64Windows)
    ));
}

#[test]
fn unsupported_pairs_are_reported_unsupported() {
    assert!(identify(HostOs::Other, HostArch::X86_64).is_none());
    assert!(identify(HostOs::Linux, HostArch::Other).is_none());
    assert!(identify(HostOs::MacOs, HostArch::Other).is_none());
    assert!(identify(HostOs::Windows, HostArch::Other).is_none());
    assert!(identify(HostOs::Other, HostArch::Other).is_none());
}

#[test]
fn platform_tokens_are_the_fixed_strings() {
    assert_eq!(PlatformTarget::X86_64Linux.token(), "x86_64-linux");
    assert_eq!(PlatformTarget::X86_64AppleDarwin.token(), "x86_64-apple-darwin");
    assert_eq!(PlatformTarget::X86_64Windows.token(), "x86_64-windows");
}
