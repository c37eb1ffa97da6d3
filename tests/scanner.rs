use tuan::file::File;
use tuan::scanner::{find_source_files, is_source_file};

fn paths(ps: &[&str]) -> Vec<String> {
    ps.iter().map(|p| p.to_string()).collect()
}

fn found(ps: &[&str]) -> Vec<String> {
    find_source_files(&paths(ps)).into_iter().map(|f: File| f.path).collect()
}

#[test]
fn only_excluded_extensions_yield_nothing() {
    let r = found(&["/p/readme.md", "/p/a.rs", "/p/data.json", "/p/Makefile", "/p/src/style.css"]);
    assert!(r.is_empty());
}

#[test]
fn empty_tree_yields_nothing() {
    assert!(found(&[]).is_empty());
}

#[test]
fn excluded_segments_drop_files_whatever_the_extension() {
    let r = found(&[
        "/p/node_modules/x/index.ts",
        "/p/.git/hooks/a.js",
        "/p/dist/a.ts",
        "/p/build/b.tsx",
        "/p/coverage/c.js",
        "/p/.svelte-kit/x.mjs",
        "/p/src/node_modules/deep/y.cjs",
    ]);
    assert!(r.is_empty());
}

#[test]
fn every_source_extension_is_taken_in_order() {
    let r = found(&["/p/a.ts", "/p/b.tsx", "/p/c.js", "/p/d.jsx", "/p/e.mjs", "/p/f.cjs", "/p/g.json"]);
    assert_eq!(r, paths(&["/p/a.ts", "/p/b.tsx", "/p/c.js", "/p/d.jsx", "/p/e.mjs", "/p/f.cjs"]));
}

#[test]
fn only_whole_segments_are_excluded() {
    assert!(is_source_file("/p/distx/a.ts"));
    assert!(is_source_file("/p/dist.ts"));
    assert!(is_source_file("/p/my-build/a.js"));
    assert!(!is_source_file("/p/build/a.js"));
    assert!(!is_source_file("build/a.js"));
}

#[test]
fn hidden_file_without_extension_is_not_taken() {
    assert!(!is_source_file("/p/.ts"));
    assert!(is_source_file("/p/..ts"));
    assert!(!is_source_file("/p/a.ts.bak"));
    assert!(!is_source_file("/p/a.d"));
}
