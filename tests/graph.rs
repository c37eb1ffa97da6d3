use tuan::file::File;
use tuan::graph::{Graph, START_JITTER};
use tuan::resolver::{parent_directory, resolution_context};
use tuan::scanner::find_source_files;
use tuan::state::GraphState;
use tuan::syntax::{extract_specifiers, SyntaxKind, SyntaxNode};

fn file(p: &str) -> File {
    File::new(p.to_string())
}

#[test]
fn relation_before_files_adds_no_edge() {
    let mut g = Graph::new();
    g.add_relation(file("/p/a.ts"), file("/p/b.ts"));
    assert_eq!(g.edge_count(), 0);
    g.add_file(file("/p/a.ts"));
    g.add_relation(file("/p/a.ts"), file("/p/b.ts"));
    g.add_relation(file("/p/b.ts"), file("/p/a.ts"));
    assert_eq!(g.edge_count(), 0);
    assert_eq!(g.node_count(), 1);
}

#[test]
fn adding_a_file_twice_keeps_the_first_node() {
    let mut g = Graph::new();
    g.add_file(file("/p/a.ts"));
    let first = g.position(0);
    g.add_file(file("/p/a.ts"));
    assert_eq!(g.node_count(), 1);
    assert_eq!(g.position(0), first);
    assert_eq!(g.index_of(&file("/p/a.ts")), Some(0));
    assert_eq!(g.index_of(&file("/p/b.ts")), None);
}

#[test]
fn relations_are_undirected_pairs_and_not_deduplicated() {
    let mut g = Graph::new();
    g.add_file(file("/p/a.ts"));
    g.add_file(file("/p/b.ts"));
    g.add_relation(file("/p/a.ts"), file("/p/b.ts"));
    g.add_relation(file("/p/a.ts"), file("/p/b.ts"));
    g.add_relation(file("/p/b.ts"), file("/p/a.ts"));
    assert_eq!(g.edge_count(), 3);
    assert_eq!(g.edge(0), (0, 1));
    assert_eq!(g.edge(1), (0, 1));
    assert_eq!(g.edge(2), (1, 0));
}

#[test]
fn starting_positions_are_near_the_origin_and_spread() {
    let mut g = Graph::with_seed(7);
    for i in 0..20 {
        g.add_file(file(&format!("/p/f{}.ts", i)));
    }
    let ps = g.positions();
    assert_eq!(ps.len(), 20);
    let limit = START_JITTER as i64;
    for p in &ps {
        assert!(-limit <= p.x && p.x <= limit);
        assert!(-limit <= p.y && p.y <= limit);
    }
    assert!(ps.iter().any(|p| p.x != -limit));
    assert!(ps.iter().any(|p| p.x != ps[0].x || p.y != ps[0].y));
}

#[test]
fn same_seed_gives_same_starting_positions() {
    let mut g1 = Graph::with_seed(42);
    for i in 0..5 {
        g1.add_file(file(&format!("/p/f{}.ts", i)));
    }
    let mut g2 = Graph::with_seed(42);
    for i in 0..5 {
        g2.add_file(file(&format!("/p/f{}.ts", i)));
    }
    assert_eq!(g1.positions(), g2.positions());
}

fn import(s: &str) -> SyntaxNode {
    SyntaxNode {
        kind: SyntaxKind::ImportDeclaration { source: s.to_string() },
        children: Vec::new(),
    }
}

fn program(children: Vec<SyntaxNode>) -> SyntaxNode {
    SyntaxNode { kind: SyntaxKind::Other, children }
}

// Resolution on disk stands outside the library: here "./x" from "/p" is
// taken to be "/p/x.ts", and anything else to resolve to nothing.
fn resolve_in_fixture(context: &str, specifier: &str) -> Option<File> {
    match specifier.strip_prefix("./") {
        Some(rest) => Some(file(&format!("{}/{}.ts", context, rest))),
        None => None,
    }
}

#[test]
fn three_file_chain_gives_three_nodes_and_two_edges() {
    let tree = vec!["/p/a.ts".to_string(), "/p/b.ts".to_string(), "/p/c.ts".to_string()];
    let files = find_source_files(&tree);
    let sources = vec![
        program(vec![import("./b")]),
        program(vec![import("./c")]),
        program(vec![]),
    ];
    let mut imports = Vec::new();
    for (f, src) in files.iter().zip(sources.iter()) {
        let mut resolved = Vec::new();
        for spec in extract_specifiers(src) {
            let ctx = resolution_context(&spec, &parent_directory(&f.path), "/p");
            if let Some(target) = resolve_in_fixture(&ctx, &spec) {
                resolved.push(target);
            }
        }
        imports.push(resolved);
    }
    let mut state = GraphState::with_seed(1);
    state.feed(&files, &imports);
    assert_eq!(state.graph.node_count(), 3);
    assert_eq!(state.graph.edge_count(), 2);
    assert_eq!(state.graph.edge(0), (0, 1));
    assert_eq!(state.graph.edge(1), (1, 2));
}

#[test]
fn unresolved_package_relation_is_dropped() {
    let mut state = GraphState::new();
    state.add_file(file("/p/a.ts"));
    let specs = extract_specifiers(&program(vec![import("react")]));
    for spec in specs {
        let ctx = resolution_context(&spec, "/p", "/p");
        assert_eq!(ctx, "/p");
        if let Some(target) = resolve_in_fixture(&ctx, &spec) {
            state.add_relation(file("/p/a.ts"), target);
        }
    }
    assert_eq!(state.graph.edge_count(), 0);
    assert_eq!(state.graph.node_count(), 1);
}

#[test]
fn feed_adds_files_once_and_skips_imports_of_unknown_files() {
    let files = vec![file("/p/a.ts"), file("/p/b.ts"), file("/p/a.ts")];
    let imports = vec![
        vec![file("/p/b.ts"), file("/p/outside.ts")],
        vec![file("/p/a.ts"), file("/p/b.ts")],
        vec![],
    ];
    let mut g = Graph::new();
    g.feed(&files, &imports);
    assert_eq!(g.node_count(), 2);
    assert_eq!(g.edge_count(), 3);
    assert_eq!(g.edge(0), (0, 1));
    assert_eq!(g.edge(1), (1, 0));
    assert_eq!(g.edge(2), (1, 1));
}
