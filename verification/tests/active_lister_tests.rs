use duckup::active::{plan_activate, plan_run, ActivatePlan};
use duckup::errors::ToolError;
use duckup::lister::{list_status, InstalledEntry};
use duckup::paths::DirLayout;

fn layout() -> DirLayout {
    DirLayout {
        data_dir: String::from("/data"),
        bin_dir: String::from("/bin"),
        duck_dir: String::from("/home/u/.duck"),
    }
}

#[test]
fn activate_missing_tag_fails_without_any_plan() {
    let l = layout();
    assert_eq!(
        plan_activate(&l, "nightly-2024-01-01", false),
        Err(ToolError::NotInstalled)
    );
}

#[test]
fn activate_installed_tag_links_binary() {
    let l = layout();
    let ActivatePlan { source_path, link_path } =
        plan_activate(&l, "nightly-2024-01-01", true).unwrap();
    assert_eq!(source_path, "/data/toolchains/nightly-2024-01-01/dargo");
    assert_eq!(link_path, "/bin/dargo");
}

#[test]
fn run_needs_an_active_toolchain() {
    let l = layout();
    assert_eq!(plan_run(&l, false), Err(ToolError::NotInstalled));
    assert_eq!(plan_run(&l, true).unwrap(), "/bin/dargo");
}

#[test]
fn empty_store_lists_empty() {
    let listed = list_status(&Vec::new(), Some(7));
    assert!(listed.is_empty());
    let listed_no_link = list_status(&Vec::new(), None);
    assert!(listed_no_link.is_empty());
}

#[test]
fn exactly_the_activated_tag_is_reported_active() {
    let entries = vec![
        InstalledEntry { tag: String::from("v1"), file_id: Some(10) },
        InstalledEntry { tag: String::from("v2"), file_id: Some(11) },
        InstalledEntry { tag: String::from("v3"), file_id: Some(12) },
    ];
    let listed = list_status(&entries, Some(11));
    assert_eq!(listed.len(), 3);
    assert_eq!(listed[0].tag, "v1");
    assert!(!listed[0].active);
    assert_eq!(listed[1].tag, "v2");
    assert!(listed[1].active);
    assert_eq!(listed[2].tag, "v3");
    assert!(!listed[2].active);
}

#[test]
fn no_link_means_nothing_active() {
    let entries = vec![
        InstalledEntry { tag: String::from("v1"), file_id: Some(10) },
        InstalledEntry { tag: String::from("v2"), file_id: None },
    ];
    let listed = list_status(&entries, None);
    assert!(listed.iter().all(|e| !e.active));
}

#[test]
fn unreadable_binary_is_never_active() {
    let entries = vec![InstalledEntry { tag: String::from("v1"), file_id: None }];
    let listed = list_status(&entries, Some(10));
    assert!(!listed[0].active);
}
