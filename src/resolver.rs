//! Where a module specifier is resolved from.
//!
//! A relative specifier (one that starts with `.`) is resolved from the
//! directory of the file that names it; any other, a package or an alias, from
//! the project root.
use vstd::prelude::*;

verus! {

/// Whether `s` is a relative specifier.
pub open spec fn is_relative(s: Seq<char>) -> bool {
    s.len() > 0 && s[0] == '.'
}

/// The index of the last `/` of `p`, or -1 where there is none.
pub open spec fn last_slash(p: Seq<char>) -> int
    decreases p.len(),
{
    if p.len() == 0 {
        -1
    } else if p.last() == '/' {
        p.len() - 1
    } else {
        last_slash(p.drop_last())
    }
}

/// The directory part of path `p`: what stands before its last `/`, or `/`
/// itself when that is the first character; empty when `p` holds no `/`.
pub open spec fn directory_of(p: Seq<char>) -> Seq<char> {
    let k = last_slash(p);
    if k < 0 {
        Seq::empty()
    } else if k == 0 {
        seq!['/']
    } else {
        p.subrange(0, k)
    }
}

proof fn lemma_last_slash(p: Seq<char>)
    ensures
        -1 <= last_slash(p) < p.len(),
        last_slash(p) >= 0 ==> p[last_slash(p)] == '/',
        forall|j: int| last_slash(p) < j < p.len() ==> p[j] != '/',
    decreases p.len(),
{
    if p.len() > 0 && p.last() != '/' {
        let q = p.drop_last();
        lemma_last_slash(q);
        assert forall|j: int| last_slash(p) < j < p.len() implies p[j] != '/' by {
            if j < q.len() {
                assert(p[j] == q[j]);
            }
        }
    }
}

/// The directory of the file at `path`.
pub fn parent_directory(path: &str) -> (r: String)
    ensures
        r@ == directory_of(path@),
{
    let n = path.unicode_len();
    let mut k: usize = n;
    proof {
        lemma_last_slash(path@);
    }
    while k > 0
        invariant
            n == path@.len(),
            k <= n,
            forall|j: int| k <= j < n ==> path@[j] != '/',
            last_slash(path@) < k,
            -1 <= last_slash(path@) < n,
            last_slash(path@) >= 0 ==> path@[last_slash(path@)] == '/',
            forall|j: int| last_slash(path@) < j < n ==> path@[j] != '/',
        decreases k,
    {
        if path.get_char(k - 1) == '/' {
            assert(last_slash(path@) == k - 1);
            if k == 1 {
                proof {
                    reveal_strlit("/");
                }
                let root = String::from_str("/");
                assert(root@ =~= seq!['/']);
                return root;
            }
            return String::from_str(path.substring_char(0, k - 1));
        }
        k = k - 1;
    }
    assert(last_slash(path@) == -1);
    String::new()
}

/// The directory from which `specifier`, named by a file of directory
/// `importer_dir`, is resolved.
pub fn resolution_context(specifier: &str, importer_dir: &str, project_root: &str) -> (r: String)
    ensures
        r@ == if is_relative(specifier@) {
            importer_dir@
        } else {
            project_root@
        },
{
    if specifier.unicode_len() > 0 && specifier.get_char(0) == '.' {
        String::from_str(importer_dir)
    } else {
        String::from_str(project_root)
    }
}

} // verus!
