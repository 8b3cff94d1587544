use duckup::text::{contains_sub, str_eq, vec_contains_str};

#[test]
fn string_equality() {
    assert!(str_eq("dargo", "dargo"));
    assert!(!str_eq("dargo", "darg"));
    assert!(!str_eq("", "a"));
    assert!(str_eq("", ""));
}

#[test]
fn vector_membership() {
    let v = vec![String::from("v1"), String::from("v2")];
    assert!(vec_contains_str(&v, "v1"));
    assert!(vec_contains_str(&v, "v2"));
    assert!(!vec_contains_str(&v, "v3"));
    assert!(!vec_contains_str(&Vec::new(), "v1"));
}

#[test]
fn search_path_containment() {
    let path = "/usr/bin:/home/u/.local/bin:/sbin";
    assert!(contains_sub(path, "/home/u/.local/bin"));
    assert!(contains_sub(path, "/usr/bin"));
    assert!(contains_sub(path, "/sbin"));
    assert!(!contains_sub(path, "/opt/bin"));
}

#[test]
fn containment_edges() {
    assert!(contains_sub("abc", ""));
    assert!(contains_sub("", ""));
    assert!(!contains_sub("", "a"));
    assert!(!contains_sub("ab", "abc"));
    assert!(contains_sub("aab", "ab"));
}
