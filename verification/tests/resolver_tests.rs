use duckup::errors::ToolError;
use duckup::release::{Asset, Release};
use duckup::resolver::{
    resolve_after_latest, resolve_from_list, resolve_request, AfterLatest, ResolveStep,
    VersionRequest,
};

fn release(tag: &str) -> Release {
    Release {
        tag: String::from(tag),
        assets: vec![Asset { name: String::from("dargo-linux-x86_64"), url: String::from("u") }],
    }
}

#[test]
fn explicit_tag_passes_through_unchanged() {
    match resolve_request(VersionRequest::Explicit(String::from("nightly-2024-01-01"))) {
        ResolveStep::Done(t) => assert_eq!(t, "nightly-2024-01-01"),
        ResolveStep::QueryLatest => panic!("explicit tag must not query"),
    }
}

#[test]
fn latest_request_queries() {
    assert!(matches!(resolve_request(VersionRequest::Latest), ResolveStep::QueryLatest));
}

#[test]
fn usable_latest_response_resolves() {
    match resolve_after_latest(Some(release("v3"))) {
        AfterLatest::Done(t) => assert_eq!(t, "v3"),
        AfterLatest::QueryList => panic!("usable response must resolve"),
    }
}

#[test]
fn unusable_latest_response_falls_back_to_list() {
    assert!(matches!(resolve_after_latest(None), AfterLatest::QueryList));
}

#[test]
fn list_takes_first_entry() {
    let r = resolve_from_list(Some(vec![release("v9"), release("v8")]));
    assert_eq!(r.unwrap(), "v9");
}

#[test]
fn empty_list_fails_resolution() {
    assert_eq!(resolve_from_list(Some(Vec::new())), Err(ToolError::Resolution));
}

#[test]
fn failed_list_query_fails_resolution() {
    assert_eq!(resolve_from_list(None), Err(ToolError::Resolution));
}
