use duckup::errors::ToolError;
use duckup::paths::{
    binary_path, cache_dir, install_dir, link_path, manifest_path, resolve_layout,
    runtime_cache_dir, runtime_cache_root, source_cache_dir, source_cache_root,
    staged_runtime_dir, staged_std_dir, std_source_dir, toolchain_dir, DirLayout,
};
use duckup::urls::{
    latest_release_url, release_list_url, release_tag_url, runtime_download_url,
    source_archive_url,
};

fn layout() -> DirLayout {
    DirLayout {
        data_dir: String::from("/data"),
        bin_dir: String::from("/bin"),
        duck_dir: String::from("/home/u/.duck"),
    }
}

#[test]
fn layout_defaults_unix() {
    let l = resolve_layout("/home/u", "/home/u/AppData/Local", &None, &None, false);
    assert_eq!(l.data_dir, "/home/u/.local/share/duckup");
    assert_eq!(l.bin_dir, "/home/u/.local/bin");
    assert_eq!(l.duck_dir, "/home/u/.duck");
}

#[test]
fn layout_defaults_windows() {
    let l = resolve_layout("C:/Users/u", "C:/Users/u/AppData/Local", &None, &None, true);
    assert_eq!(l.data_dir, "C:/Users/u/AppData/Local/duck-compiler/duckup");
    assert_eq!(l.bin_dir, "C:/Users/u/AppData/Local/duck-compiler/duckup/bin");
    assert_eq!(l.duck_dir, "C:/Users/u/.duck");
}

#[test]
fn layout_overrides_win_over_defaults() {
    let l = resolve_layout(
        "/home/u",
        "/x",
        &Some(String::from("/custom/data")),
        &Some(String::from("/custom/bin")),
        false,
    );
    assert_eq!(l.data_dir, "/custom/data/duckup");
    assert_eq!(l.bin_dir, "/custom/bin");
    assert_eq!(l.duck_dir, "/home/u/.duck");
}

#[test]
fn derived_paths() {
    let l = layout();
    assert_eq!(toolchain_dir(&l), "/data/toolchains");
    assert_eq!(cache_dir(&l), "/data/cache");
    assert_eq!(source_cache_root(&l), "/data/cache/source");
    assert_eq!(source_cache_dir(&l, "v1"), "/data/cache/source/v1");
    assert_eq!(runtime_cache_root(&l), "/data/cache/go");
    assert_eq!(runtime_cache_dir(&l, "1.25.0"), "/data/cache/go/1.25.0");
    assert_eq!(manifest_path(&l, "v1"), "/data/cache/source/v1/duck-version-info.json");
    assert_eq!(std_source_dir(&l, "v1"), "/data/cache/source/v1/std");
    assert_eq!(install_dir(&l, "v1"), "/data/toolchains/v1");
    assert_eq!(binary_path(&l, "v1"), "/data/toolchains/v1/dargo");
    assert_eq!(link_path(&l), "/bin/dargo");
    assert_eq!(staged_runtime_dir(&l), "/home/u/.duck/go-compiler");
    assert_eq!(staged_std_dir(&l), "/home/u/.duck/std");
}

#[test]
fn endpoint_urls() {
    assert_eq!(
        release_tag_url("nightly-2024-01-01"),
        "https://api.github.com/repos/duck-compiler/duckc/releases/tags/nightly-2024-01-01"
    );
    assert_eq!(
        latest_release_url(),
        "https://api.github.com/repos/duck-compiler/duckc/releases/latest"
    );
    assert_eq!(
        release_list_url(),
        "https://api.github.com/repos/duck-compiler/duckc/releases?per_page=1"
    );
    assert_eq!(
        source_archive_url("nightly-2024-01-01"),
        "https://github.com/duck-compiler/duckc/archive/refs/tags/nightly-2024-01-01.tar.gz"
    );
    assert_eq!(
        runtime_download_url("go1.25.0.linux-amd64.tar.gz"),
        "https://go.dev/dl/go1.25.0.linux-amd64.tar.gz"
    );
}

#[test]
fn error_descriptions() {
    assert_eq!(
        ToolError::UnsupportedPlatform.describe(),
        "unsupported operating system or architecture"
    );
    assert_eq!(ToolError::Network { status: 500 }.describe(), "request to a release host failed");
    assert_eq!(ToolError::AssetNotFound.describe(), "release has no binary for this platform");
    assert_eq!(ToolError::Resolution.describe(), "no releases found");
    assert_eq!(ToolError::NotInstalled.describe(), "toolchain version is not installed");
}
