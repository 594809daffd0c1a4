use binary_install::Cache;
use wasm_toolkit::fetch::ToolkitError;
use wasm_toolkit::platform::{HostArch, HostOs};
use wasm_toolkit::wasm_toolkit::{FindExec, Toolkit};

#[test]
fn local_tool_wins_whatever_the_install_flag_says() {
    let dir = tempfile::tempdir().unwrap();
    let cache = Cache::at(dir.path());
    for permitted in [false, true] {
        let r = Toolkit::WasmOpt.resolve_with_local(
            &cache,
            Some(String::from("/usr/local/bin/wasm-opt")),
            HostOs::Linux,
            HostArch::X86_64,
            permitted,
        );
        match r {
            Ok(FindExec::Found(path)) => assert_eq!(path, "/usr/local/bin/wasm-opt"),
            _ => panic!("a tool on the search path must be used as found"),
        }
    }
}

#[test]
fn unsupported_platform_is_a_skip_not_an_error() {
    let dir = tempfile::tempdir().unwrap();
    let cache = Cache::at(dir.path());
    let r = Toolkit::WasmOpt.resolve_with_local(
        &cache,
        None,
        HostOs::Other,
        HostArch::Other,
        true,
    );
    assert!(matches!(r, Ok(FindExec::PlatformNotSupported)));
}

#[test]
fn no_cache_and_no_permission_cannot_install() {
    let dir = tempfile::tempdir().unwrap();
    let cache = Cache::at(dir.path());
    let r = Toolkit::WasmDis.resolve_with_local(
        &cache,
        None,
        HostOs::Linux,
        HostArch::X86_64,
        false,
    );
    assert!(matches!(r, Ok(FindExec::CannotInstall)));
}

#[test]
fn find_exec_never_reports_cannot_install_on_unsupported_platform() {
    let dir = tempfile::tempdir().unwrap();
    let cache = Cache::at(dir.path());
    let r = Toolkit::WasmOpt.find_exec(&cache, HostOs::Other, HostArch::X86_64, true);
    match r {
        Ok(FindExec::Found(path)) => assert!(!path.is_empty()),
        Ok(FindExec::PlatformNotSupported) => {}
        Ok(FindExec::CannotInstall) => {
            panic!("an unsupported platform must never be reported as a forbidden install")
        }
        Err(_) => panic!("an unsupported platform must never be an error"),
    }
}

#[test]
fn broken_download_is_a_propagated_error() {
    let dir = tempfile::tempdir().unwrap();
    let cache = Cache::at(dir.path());
    // With installation permitted, an empty cache forces a download; with no
    // reachable network the failure must surface as an error, never be
    // absorbed into `CannotInstall`.
    let r = Toolkit::WasmOpt.resolve_with_local(
        &cache,
        None,
        HostOs::Linux,
        HostArch::X86_64,
        true,
    );
    match r {
        Err(ToolkitError::Download(_)) => {}
        Err(ToolkitError::Binary(_)) => panic!("the failure came before any extraction"),
        Ok(FindExec::CannotInstall) => panic!("a download failure must not become a skip"),
        Ok(other) => panic!("unexpected success without network: {:?}", other),
    }
}
