use duckup::manifest::{manifest_go, runtime_version};

#[test]
fn missing_manifest_falls_back() {
    assert_eq!(runtime_version(None), "1.25.0");
}

#[test]
fn manifest_names_the_runtime_version() {
    assert_eq!(manifest_go("{\"go\": \"1.24.3\"}").unwrap(), "1.24.3");
    assert_eq!(runtime_version(Some("{\"go\": \"1.24.3\"}")), "1.24.3");
}

#[test]
fn manifest_tolerates_whitespace_and_other_fields() {
    let text = "  {\n  \"name\": \"duck\",\n  \"go\": \"1.23.0\",\n  \"revision\": 42\n}\n";
    assert_eq!(manifest_go(text).unwrap(), "1.23.0");
}

#[test]
fn manifest_accepts_primitive_values_elsewhere() {
    assert_eq!(manifest_go("{\"a\": true, \"go\": \"9\", \"b\": null}").unwrap(), "9");
    assert_eq!(manifest_go("{\"a\": 1.5, \"go\": \"9\"}").unwrap(), "9");
    assert_eq!(manifest_go("{\"a\": -0.5e+10, \"go\": \"9\", \"b\": false}").unwrap(), "9");
}

#[test]
fn manifest_skips_nested_values_elsewhere() {
    assert_eq!(manifest_go("{\"a\":{},\"go\":\"1.2\"}").unwrap(), "1.2");
    assert_eq!(manifest_go("{\"deps\": {\"a\": \"1\"}, \"go\": \"1.2\"}").unwrap(), "1.2");
    assert_eq!(manifest_go("{\"a\": [1, [true, {\"b\": []}], \"x\"], \"go\": \"1.2\"}").unwrap(), "1.2");
    assert_eq!(
        manifest_go("{\"a\": {\"b\": {\"c\": [{}, [[]], \"\\u0041\"]}}, \"go\": \"1.2\"}").unwrap(),
        "1.2"
    );
}

#[test]
fn manifest_decodes_escapes() {
    assert_eq!(manifest_go("{\"go\": \"1.2\\n\"}").unwrap(), "1.2\n");
    assert_eq!(manifest_go("{\"go\": \"a\\\\b\\\"c\\/d\"}").unwrap(), "a\\b\"c/d");
    assert_eq!(manifest_go("{\"go\": \"\\u0031.\\u0032\"}").unwrap(), "1.2");
    assert_eq!(manifest_go("{\"g\\u006f\": \"1.2\"}").unwrap(), "1.2");
    assert_eq!(manifest_go("{\"go\": \"\\uD83D\\uDE00\"}").unwrap(), "\u{1F600}");
}

#[test]
fn unpaired_surrogate_in_version_falls_back() {
    assert_eq!(runtime_version(Some("{\"go\": \"\\uD800\"}")), "1.25.0");
    assert_eq!(runtime_version(Some("{\"go\": \"\\uDC00\"}")), "1.25.0");
    assert_eq!(runtime_version(Some("{\"go\": \"\\uD800x\"}")), "1.25.0");
}

#[test]
fn skipped_strings_tolerate_lone_surrogate_escapes() {
    assert_eq!(manifest_go("{\"a\": \"\\uD800\", \"go\": \"9\"}").unwrap(), "9");
}

#[test]
fn empty_object_has_no_version() {
    assert_eq!(manifest_go("{}"), None);
    assert_eq!(runtime_version(Some("{}")), "1.25.0");
    assert_eq!(manifest_go("  { }  "), None);
}

#[test]
fn malformed_manifest_falls_back() {
    assert_eq!(runtime_version(Some("")), "1.25.0");
    assert_eq!(runtime_version(Some("not json")), "1.25.0");
    assert_eq!(runtime_version(Some("{\"go\": \"1.2\"")), "1.25.0");
    assert_eq!(runtime_version(Some("{\"go\": \"1.2\"} trailing")), "1.25.0");
    assert_eq!(runtime_version(Some("[\"go\"]")), "1.25.0");
    assert_eq!(runtime_version(Some("{\"go\": \"1.2\",}")), "1.25.0");
    assert_eq!(runtime_version(Some("{\"a\": [1, \"go\": \"1.2\"}")), "1.25.0");
    assert_eq!(runtime_version(Some("{\"a\": 01, \"go\": \"1.2\"}")), "1.25.0");
    assert_eq!(runtime_version(Some("{\"a\": 1e, \"go\": \"1.2\"}")), "1.25.0");
    assert_eq!(runtime_version(Some("{\"a\": truthy, \"go\": \"1.2\"}")), "1.25.0");
    assert_eq!(runtime_version(Some("{\"a\": \"\\x\", \"go\": \"1.2\"}")), "1.25.0");
}

#[test]
fn non_string_version_falls_back() {
    assert_eq!(runtime_version(Some("{\"go\": 1.25}")), "1.25.0");
    assert_eq!(runtime_version(Some("{\"go\": null}")), "1.25.0");
    assert_eq!(runtime_version(Some("{\"go\": [\"1.25\"]}")), "1.25.0");
    assert_eq!(runtime_version(Some("{\"go\": {\"v\": \"1.25\"}}")), "1.25.0");
}

#[test]
fn duplicate_version_key_falls_back() {
    assert_eq!(runtime_version(Some("{\"go\": \"1.2\", \"go\": \"1.3\"}")), "1.25.0");
    assert_eq!(runtime_version(Some("{\"g\\u006f\": \"1.2\", \"go\": \"1.3\"}")), "1.25.0");
}

#[test]
fn empty_version_string_is_kept() {
    assert_eq!(manifest_go("{\"go\": \"\"}").unwrap(), "");
}
