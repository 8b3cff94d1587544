use duckup::errors::ToolError;
use duckup::platform::{release_asset_name, runtime_asset_name};

#[test]
fn release_table_linux() {
    assert_eq!(release_asset_name("linux", "x86_64").unwrap(), "dargo-linux-x86_64");
    assert_eq!(release_asset_name("linux", "aarch64").unwrap(), "dargo-linux-aarch64");
    assert_eq!(release_asset_name("linux", "arm").unwrap(), "dargo-linux-armv7");
}

#[test]
fn release_table_macos() {
    assert_eq!(release_asset_name("macos", "x86_64").unwrap(), "dargo-macos-x86_64");
    assert_eq!(release_asset_name("macos", "aarch64").unwrap(), "dargo-macos-aarch64");
    assert_eq!(release_asset_name("macos", "arm").unwrap(), "dargo-macos-armv7");
}

#[test]
fn release_table_windows_has_exe_suffix() {
    assert_eq!(release_asset_name("windows", "x86_64").unwrap(), "dargo-windows-x86_64.exe");
    assert_eq!(release_asset_name("windows", "aarch64").unwrap(), "dargo-windows-aarch64.exe");
    assert_eq!(release_asset_name("windows", "arm").unwrap(), "dargo-windows-armv7.exe");
}

#[test]
fn release_mapping_fails_closed() {
    assert_eq!(release_asset_name("freebsd", "x86_64"), Err(ToolError::UnsupportedPlatform));
    assert_eq!(release_asset_name("linux", "riscv64"), Err(ToolError::UnsupportedPlatform));
    assert_eq!(release_asset_name("", ""), Err(ToolError::UnsupportedPlatform));
    assert_eq!(release_asset_name("linux", "x86"), Err(ToolError::UnsupportedPlatform));
}

#[test]
fn runtime_table_linux() {
    assert_eq!(runtime_asset_name("1.25.0", "linux", "x86_64").unwrap(), "go1.25.0.linux-amd64.tar.gz");
    assert_eq!(runtime_asset_name("1.25.0", "linux", "aarch64").unwrap(), "go1.25.0.linux-arm64.tar.gz");
    assert_eq!(runtime_asset_name("1.25.0", "linux", "x86").unwrap(), "go1.25.0.linux-386.tar.gz");
    assert_eq!(runtime_asset_name("1.25.0", "linux", "arm").unwrap(), "go1.25.0.linux-armv6l.tar.gz");
}

#[test]
fn runtime_table_macos_is_darwin() {
    assert_eq!(runtime_asset_name("1.22.1", "macos", "x86_64").unwrap(), "go1.22.1.darwin-amd64.tar.gz");
    assert_eq!(runtime_asset_name("1.22.1", "macos", "aarch64").unwrap(), "go1.22.1.darwin-arm64.tar.gz");
    assert_eq!(runtime_asset_name("1.22.1", "macos", "x86").unwrap(), "go1.22.1.darwin-386.tar.gz");
    assert_eq!(runtime_asset_name("1.22.1", "macos", "arm").unwrap(), "go1.22.1.darwin-armv6l.tar.gz");
}

#[test]
fn runtime_table_windows_is_zip() {
    assert_eq!(runtime_asset_name("1.25.0", "windows", "x86_64").unwrap(), "go1.25.0.windows-amd64.zip");
    assert_eq!(runtime_asset_name("1.25.0", "windows", "aarch64").unwrap(), "go1.25.0.windows-arm64.zip");
    assert_eq!(runtime_asset_name("1.25.0", "windows", "x86").unwrap(), "go1.25.0.windows-386.zip");
    assert_eq!(runtime_asset_name("1.25.0", "windows", "arm").unwrap(), "go1.25.0.windows-armv6l.zip");
}

#[test]
fn runtime_mapping_fails_closed() {
    assert_eq!(runtime_asset_name("1.25.0", "freebsd", "x86_64"), Err(ToolError::UnsupportedPlatform));
    assert_eq!(runtime_asset_name("1.25.0", "linux", "sparc"), Err(ToolError::UnsupportedPlatform));
    assert_eq!(runtime_asset_name("1.25.0", "darwin", "x86_64"), Err(ToolError::UnsupportedPlatform));
}
