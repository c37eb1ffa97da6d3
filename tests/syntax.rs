use tuan::syntax::{dialect_of, extract_specifiers, ModuleDialect, SyntaxKind, SyntaxNode};

fn leaf(kind: SyntaxKind) -> SyntaxNode {
    SyntaxNode { kind, children: Vec::new() }
}

fn other(children: Vec<SyntaxNode>) -> SyntaxNode {
    SyntaxNode { kind: SyntaxKind::Other, children }
}

fn call(callee: Option<&str>, arg: Option<&str>, children: Vec<SyntaxNode>) -> SyntaxNode {
    SyntaxNode {
        kind: SyntaxKind::CallExpression {
            callee_name: callee.map(|c| c.to_string()),
            first_string_argument: arg.map(|a| a.to_string()),
        },
        children,
    }
}

#[test]
fn four_kinds_of_import_in_source_order() {
    let program = other(vec![
        leaf(SyntaxKind::ImportDeclaration { source: "./a".to_string() }),
        leaf(SyntaxKind::ExportAllDeclaration { source: "./b".to_string() }),
        other(vec![leaf(SyntaxKind::ImportExpression {
            first_string_argument: Some("./c".to_string()),
        })]),
        other(vec![call(Some("require"), Some("./d"), vec![])]),
    ]);
    assert_eq!(extract_specifiers(&program), vec!["./a", "./b", "./c", "./d"]);
}

#[test]
fn named_reexport_counts_and_plain_export_does_not() {
    let program = other(vec![
        leaf(SyntaxKind::ExportNamedDeclaration { from: Some("./x".to_string()) }),
        leaf(SyntaxKind::ExportNamedDeclaration { from: None }),
    ]);
    assert_eq!(extract_specifiers(&program), vec!["./x"]);
}

#[test]
fn member_accessed_require_is_found_once() {
    // require("./cfg").load
    let program = other(vec![other(vec![call(Some("require"), Some("./cfg"), vec![])])]);
    assert_eq!(extract_specifiers(&program), vec!["./cfg"]);
}

#[test]
fn nested_calls_are_searched() {
    // wrap(require("./inner"), other("./no"))
    let program = other(vec![call(
        Some("wrap"),
        None,
        vec![
            call(Some("require"), Some("./inner"), vec![]),
            call(Some("other"), Some("./no"), vec![]),
        ],
    )]);
    assert_eq!(extract_specifiers(&program), vec!["./inner"]);
}

#[test]
fn dynamic_import_without_literal_and_computed_require_are_skipped() {
    let program = other(vec![
        leaf(SyntaxKind::ImportExpression { first_string_argument: None }),
        call(Some("require"), None, vec![]),
        call(None, Some("./x"), vec![]),
        call(Some("requires"), Some("./y"), vec![]),
    ]);
    assert!(extract_specifiers(&program).is_empty());
}

#[test]
fn duplicates_are_kept() {
    let program = other(vec![
        leaf(SyntaxKind::ImportDeclaration { source: "./a".to_string() }),
        leaf(SyntaxKind::ImportDeclaration { source: "./a".to_string() }),
    ]);
    assert_eq!(extract_specifiers(&program), vec!["./a", "./a"]);
}

#[test]
fn dialect_follows_extension() {
    assert_eq!(dialect_of("/p/a.tsx"), ModuleDialect::Tsx);
    assert_eq!(dialect_of("/p/a.ts"), ModuleDialect::Ts);
    assert_eq!(dialect_of("/p/a.jsx"), ModuleDialect::Jsx);
    assert_eq!(dialect_of("/p/a.mjs"), ModuleDialect::Mjs);
    assert_eq!(dialect_of("/p/a.cjs"), ModuleDialect::Cjs);
    assert_eq!(dialect_of("/p/a.js"), ModuleDialect::Unambiguous);
    assert_eq!(dialect_of("/p/ts"), ModuleDialect::Unambiguous);
}
