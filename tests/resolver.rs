use tuan::resolver::{parent_directory, resolution_context};

#[test]
fn relative_specifier_resolves_from_importer_directory() {
    assert_eq!(resolution_context("./b", "/p/a", "/p"), "/p/a");
    assert_eq!(resolution_context("../c", "/p/a", "/p"), "/p/a");
}

#[test]
fn bare_specifier_resolves_from_project_root() {
    assert_eq!(resolution_context("react", "/p/a", "/p"), "/p");
    assert_eq!(resolution_context("@scope/pkg", "/p/a", "/p"), "/p");
    assert_eq!(resolution_context("", "/p/a", "/p"), "/p");
}

#[test]
fn parent_directory_of_paths() {
    assert_eq!(parent_directory("/p/a/index.ts"), "/p/a");
    assert_eq!(parent_directory("/index.ts"), "/");
    assert_eq!(parent_directory("index.ts"), "");
    assert_eq!(parent_directory("a/b"), "a");
}
