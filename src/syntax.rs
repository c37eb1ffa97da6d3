//! The module specifiers that a source file names, read off its syntax tree.
//!
//! The tree is the parser's, reduced to what extraction needs: each node
//! carries a kind, and for the kinds that can name a module, the string
//! literals involved; every node keeps all of its children, so that nested
//! imports are found wherever they stand.
use vstd::prelude::*;

use crate::scanner::{ends_with_extension, ext_cjs, ext_jsx, ext_mjs, ext_ts, ext_tsx, has_extension};
use crate::text::{chars_of, string_views};

verus! {

/// What a node of the syntax tree is, as far as imports are concerned.
pub enum SyntaxKind {
    /// `import ... from "source"` or `import "source"`.
    ImportDeclaration { source: String },
    /// `export * from "source"`.
    ExportAllDeclaration { source: String },
    /// `export { ... }`, with `from "source"` when it re-exports.
    ExportNamedDeclaration { from: Option<String> },
    /// `import(...)`, with its first argument when that is a string literal.
    ImportExpression { first_string_argument: Option<String> },
    /// A call `f(...)`: the callee's name when it is a plain identifier, and the
    /// first argument when that is a string literal.
    CallExpression { callee_name: Option<String>, first_string_argument: Option<String> },
    /// Any other node.
    Other,
}

/// A node of a syntax tree, with its children in source order.
pub struct SyntaxNode {
    pub kind: SyntaxKind,
    pub children: Vec<SyntaxNode>,
}

pub open spec fn require_name() -> Seq<char> {
    seq!['r', 'e', 'q', 'u', 'i', 'r', 'e']
}

/// The specifiers that a node names by itself, not counting its children.
pub open spec fn own_specifiers(k: SyntaxKind) -> Seq<Seq<char>> {
    match k {
        SyntaxKind::ImportDeclaration { source } => seq![source@],
        SyntaxKind::ExportAllDeclaration { source } => seq![source@],
        SyntaxKind::ExportNamedDeclaration { from: Some(source) } => seq![source@],
        SyntaxKind::ImportExpression { first_string_argument: Some(arg) } => seq![arg@],
        SyntaxKind::CallExpression {
            callee_name: Some(name),
            first_string_argument: Some(arg),
        } => if name@ == require_name() {
            seq![arg@]
        } else {
            Seq::empty()
        },
        _ => Seq::empty(),
    }
}

/// The specifiers named in the tree rooted at `n`, in source order: the node's
/// own, then those of its children, each child's tree in turn.
pub open spec fn node_specifiers(n: SyntaxNode) -> Seq<Seq<char>>
    decreases n,
{
    own_specifiers(n.kind) + forest_specifiers(n.children@)
}

/// The specifiers named in a sequence of sibling trees, in order.
pub open spec fn forest_specifiers(ns: Seq<SyntaxNode>) -> Seq<Seq<char>>
    decreases ns,
{
    if ns.len() == 0 {
        Seq::empty()
    } else {
        forest_specifiers(ns.subrange(0, ns.len() - 1)) + node_specifiers(ns[ns.len() - 1])
    }
}

fn is_require(name: &String) -> (r: bool)
    ensures
        r == (name@ == require_name()),
{
    let n = name.as_str();
    if n.unicode_len() != 7 {
        return false;
    }
    let want: Vec<char> = vec!['r', 'e', 'q', 'u', 'i', 'r', 'e'];
    assert(want@ =~= require_name());
    let mut i: usize = 0;
    while i < 7
        invariant
            n@ == name@,
            n@.len() == 7,
            want@ == require_name(),
            i <= 7,
            forall|t: int| 0 <= t < i ==> n@[t] == require_name()[t],
        decreases 7 - i,
    {
        if n.get_char(i) != want[i] {
            return false;
        }
        i = i + 1;
    }
    assert(n@ =~= require_name());
    true
}

fn push_own(kind: &SyntaxKind, out: &mut Vec<String>)
    ensures
        string_views(final(out)@) == string_views(old(out)@) + own_specifiers(*kind),
{
    let ghost before = out@;
    match kind {
        SyntaxKind::ImportDeclaration { source } => out.push(source.clone()),
        SyntaxKind::ExportAllDeclaration { source } => out.push(source.clone()),
        SyntaxKind::ExportNamedDeclaration { from: Some(source) } => out.push(source.clone()),
        SyntaxKind::ImportExpression { first_string_argument: Some(arg) } => out.push(arg.clone()),
        SyntaxKind::CallExpression { callee_name: Some(name), first_string_argument: Some(arg) } => {
            if is_require(name) {
                out.push(arg.clone());
            }
        },
        _ => {},
    }
    assert(string_views(out@) =~= string_views(before) + own_specifiers(*kind));
}

fn collect_node(n: &SyntaxNode, out: &mut Vec<String>)
    ensures
        string_views(final(out)@) == string_views(old(out)@) + node_specifiers(*n),
    decreases n,
{
    let ghost before = out@;
    push_own(&n.kind, out);
    collect_forest(&n.children, out);
    assert(string_views(out@) =~= string_views(before) + node_specifiers(*n));
}

fn collect_forest(ns: &Vec<SyntaxNode>, out: &mut Vec<String>)
    ensures
        string_views(final(out)@) == string_views(old(out)@) + forest_specifiers(ns@),
    decreases ns,
{
    let ghost before = out@;
    let mut i: usize = 0;
    while i < ns.len()
        invariant
            i <= ns.len(),
            string_views(out@) == string_views(before) + forest_specifiers(ns@.subrange(0, i as int)),
        decreases ns.len() - i,
    {
        let ghost prefix = ns@.subrange(0, i as int);
        let ghost next = ns@.subrange(0, i + 1);
        assert(next.subrange(0, next.len() - 1) =~= prefix);
        assert(next[next.len() - 1] == ns@[i as int]);
        collect_node(&ns[i], out);
        i = i + 1;
        assert(string_views(out@) =~= string_views(before) + forest_specifiers(next));
    }
    assert(ns@.subrange(0, ns.len() as int) =~= ns@);
}

/// The module specifiers that the tree rooted at `root` names, in source order,
/// duplicates kept: import declarations, re-exports, dynamic imports with a
/// string literal, and `require` calls with a string literal.
pub fn extract_specifiers(root: &SyntaxNode) -> (r: Vec<String>)
    ensures
        string_views(r@) == node_specifiers(*root),
{
    let mut out: Vec<String> = Vec::new();
    collect_node(root, &mut out);
    assert(string_views(out@) =~= node_specifiers(*root));
    out
}

/// How a file's text is to be parsed, as its extension tells.
#[derive(Debug, Clone, Copy, PartialEq, Eq, Structural)]
pub enum ModuleDialect {
    /// TypeScript with JSX.
    Tsx,
    /// TypeScript.
    Ts,
    /// JavaScript with JSX.
    Jsx,
    /// An ECMAScript module.
    Mjs,
    /// A CommonJS module.
    Cjs,
    /// Script or module, as the text shows.
    Unambiguous,
}

pub open spec fn dialect_for(p: Seq<char>) -> ModuleDialect {
    if has_extension(p, ext_tsx()) {
        ModuleDialect::Tsx
    } else if has_extension(p, ext_ts()) {
        ModuleDialect::Ts
    } else if has_extension(p, ext_jsx()) {
        ModuleDialect::Jsx
    } else if has_extension(p, ext_mjs()) {
        ModuleDialect::Mjs
    } else if has_extension(p, ext_cjs()) {
        ModuleDialect::Cjs
    } else {
        ModuleDialect::Unambiguous
    }
}

/// The dialect in which the file at `path` is parsed.
pub fn dialect_of(path: &str) -> (r: ModuleDialect)
    ensures
        r == dialect_for(path@),
{
    let p = chars_of(path);
    if ends_with_extension(&p, &vec!['t', 's', 'x']) {
        ModuleDialect::Tsx
    } else if ends_with_extension(&p, &vec!['t', 's']) {
        ModuleDialect::Ts
    } else if ends_with_extension(&p, &vec!['j', 's', 'x']) {
        ModuleDialect::Jsx
    } else if ends_with_extension(&p, &vec!['m', 'j', 's']) {
        ModuleDialect::Mjs
    } else if ends_with_extension(&p, &vec!['c', 'j', 's']) {
        ModuleDialect::Cjs
    } else {
        ModuleDialect::Unambiguous
    }
}

} // verus!
