use pkg_builder::paths::{path_has_parent, path_join, pop_path, tilde};

#[test]
fn joining_paths() {
    assert_eq!(path_join("/a", "b"), "/a/b");
    assert_eq!(path_join("/a/", "b"), "/a/b");
    assert_eq!(path_join("", "b"), "b");
    assert_eq!(path_join("/a", "/b"), "/b");
}

#[test]
fn parents_of_paths() {
    assert!(path_has_parent("/w/hello/hello-1.0"));
    assert!(path_has_parent("x"));
    assert!(!path_has_parent(""));
    assert!(!path_has_parent("///"));
    assert_eq!(pop_path("/w/hello/hello-1.0"), "/w/hello");
    assert_eq!(pop_path("a/b"), "a");
}

#[test]
fn home_directory_expansion() {
    assert_eq!(tilde("/abs/path"), "/abs/path");
    assert_eq!(tilde("rel"), "rel");
    assert_eq!(tilde("~user/x"), "~user/x");
    assert!(!tilde("~/x").starts_with('~') || tilde("~/x") == "~/x");
    assert!(tilde("~/x").ends_with("/x"));
}

#[test]
fn popping_paths_with_dot_components() {
    assert_eq!(pop_path("a/./b"), "a");
    assert_eq!(pop_path("a/b/c"), "a/b");
}
