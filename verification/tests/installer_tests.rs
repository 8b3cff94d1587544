use duckup::errors::{check_status, ToolError};
use duckup::installer::{plan_install, InstallPlan};
use duckup::paths::DirLayout;
use duckup::release::{select_asset, Asset, Release};
use duckup::store::StoreState;

fn layout() -> DirLayout {
    DirLayout {
        data_dir: String::from("/data"),
        bin_dir: String::from("/bin"),
        duck_dir: String::from("/home/u/.duck"),
    }
}

#[test]
fn install_plans_fetch_for_new_tag() {
    let l = layout();
    let store = StoreState::new();
    match plan_install(&l, "nightly-2024-01-01", "linux", "x86_64", &store).unwrap() {
        InstallPlan::Fetch { metadata_url, asset_name, install_dir, binary_dest } => {
            assert_eq!(
                metadata_url,
                "https://api.github.com/repos/duck-compiler/duckc/releases/tags/nightly-2024-01-01"
            );
            assert_eq!(asset_name, "dargo-linux-x86_64");
            assert_eq!(install_dir, "/data/toolchains/nightly-2024-01-01");
            assert_eq!(binary_dest, "/data/toolchains/nightly-2024-01-01/dargo");
        }
        InstallPlan::AlreadyInstalled => panic!("new tag must plan a fetch"),
    }
}

#[test]
fn second_install_of_same_tag_is_a_no_op() {
    let l = layout();
    let mut store = StoreState::new();
    assert!(matches!(
        plan_install(&l, "v1", "linux", "x86_64", &store).unwrap(),
        InstallPlan::Fetch { .. }
    ));
    store.record_install(String::from("v1"));
    assert!(matches!(
        plan_install(&l, "v1", "linux", "x86_64", &store).unwrap(),
        InstallPlan::AlreadyInstalled
    ));
}

#[test]
fn installed_tag_skips_even_on_unsupported_platform() {
    let l = layout();
    let mut store = StoreState::new();
    store.record_install(String::from("v1"));
    assert!(matches!(
        plan_install(&l, "v1", "plan9", "mips", &store).unwrap(),
        InstallPlan::AlreadyInstalled
    ));
}

#[test]
fn install_fails_closed_on_unsupported_platform() {
    let l = layout();
    let store = StoreState::new();
    assert_eq!(
        plan_install(&l, "v1", "plan9", "mips", &store),
        Err(ToolError::UnsupportedPlatform)
    );
}

#[test]
fn select_asset_finds_exact_name() {
    let rel = Release {
        tag: String::from("nightly-2024-01-01"),
        assets: vec![
            Asset { name: String::from("dargo-macos-aarch64"), url: String::from("https://h/m") },
            Asset { name: String::from("dargo-linux-x86_64"), url: String::from("https://h/l") },
        ],
    };
    assert_eq!(select_asset(&rel, "dargo-linux-x86_64").unwrap(), "https://h/l");
}

#[test]
fn select_asset_takes_first_of_equal_names() {
    let rel = Release {
        tag: String::from("v1"),
        assets: vec![
            Asset { name: String::from("a"), url: String::from("first") },
            Asset { name: String::from("a"), url: String::from("second") },
        ],
    };
    assert_eq!(select_asset(&rel, "a").unwrap(), "first");
}

#[test]
fn select_asset_fails_when_absent() {
    let rel = Release {
        tag: String::from("v1"),
        assets: vec![Asset { name: String::from("dargo-macos-x86_64"), url: String::from("u") }],
    };
    assert_eq!(select_asset(&rel, "dargo-linux-x86_64"), Err(ToolError::AssetNotFound));
}

#[test]
fn select_asset_fails_on_empty_release() {
    let rel = Release { tag: String::from("v1"), assets: Vec::new() };
    assert_eq!(select_asset(&rel, "dargo-linux-x86_64"), Err(ToolError::AssetNotFound));
}

#[test]
fn status_classification() {
    assert!(check_status(200).is_ok());
    assert!(check_status(204).is_ok());
    assert!(check_status(299).is_ok());
    assert_eq!(check_status(199), Err(ToolError::Network { status: 199 }));
    assert_eq!(check_status(301), Err(ToolError::Network { status: 301 }));
    assert_eq!(check_status(404), Err(ToolError::Network { status: 404 }));
    assert_eq!(check_status(500), Err(ToolError::Network { status: 500 }));
}
