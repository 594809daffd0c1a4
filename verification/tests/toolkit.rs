use wasm_toolkit::platform::PlatformTarget;
use wasm_toolkit::wasm_toolkit::Toolkit;

#[test]
fn toolkit_names() {
    assert_eq!(Toolkit::WasmOpt.name(), "wasm-opt");
    assert_eq!(Toolkit::WasmDis.name(), "wasm-dis");
}

#[test]
fn toolkit_version_is_pinned() {
    assert_eq!(Toolkit::WasmOpt.version(), "version_78");
    assert_eq!(Toolkit::WasmDis.version(), "version_78");
}

#[test]
fn download_url_is_bit_exact_for_linux() {
    let url = Toolkit::WasmOpt.download_url(PlatformTarget::X86_64Linux);
    assert_eq!(
        url,
        "https://github.com/WebAssembly/binaryen/releases/download/version_78/binaryen-version_78-x86_64-linux.tar.gz"
    );
}

#[test]
fn download_url_is_bit_exact_for_darwin_and_windows() {
    let url = Toolkit::WasmDis.download_url(PlatformTarget::X86_64AppleDarwin);
    assert_eq!(
        url,
        "https://github.com/WebAssembly/binaryen/releases/download/version_78/binaryen-version_78-x86_64-apple-darwin.tar.gz"
    );
    let url = Toolkit::WasmDis.download_url(PlatformTarget::X86_64Windows);
    assert_eq!(
        url,
        "https://github.com/WebAssembly/binaryen/releases/download/version_78/binaryen-version_78-x86_64-windows.tar.gz"
    );
}
