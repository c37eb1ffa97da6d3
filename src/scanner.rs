//! Which files of a source tree are candidates for the dependency map.
//!
//! A path is a candidate when its extension is one of the source-file
//! extensions and none of its segments names a dependency directory, build
//! output, version-control metadata or coverage output.
use vstd::prelude::*;

use crate::file::{file_paths, File};
use crate::text::{chars_of, string_views};

verus! {

/// Whether a segment of `p` (a maximal run between `/` separators) starts at `i`
/// and equals `name`.
pub open spec fn segment_at(p: Seq<char>, name: Seq<char>, i: int) -> bool {
    &&& 0 <= i
    &&& i + name.len() <= p.len()
    &&& (i == 0 || p[i - 1] == '/')
    &&& p.subrange(i, i + name.len()) == name
    &&& (i + name.len() == p.len() || p[i + name.len()] == '/')
}

/// Whether one of the segments of `p` equals `name`.
pub open spec fn has_segment(p: Seq<char>, name: Seq<char>) -> bool {
    exists|i: int| #[trigger] segment_at(p, name, i)
}

/// Whether the extension of `p` is `ext`: the last segment ends with `.` and
/// `ext`, and something that is not `/` stands before that dot.
/// (`ext` itself holds neither `.` nor `/`.)
pub open spec fn has_extension(p: Seq<char>, ext: Seq<char>) -> bool {
    let k = p.len() - ext.len();
    &&& k >= 2
    &&& p.subrange(k, p.len() as int) == ext
    &&& p[k - 1] == '.'
    &&& p[k - 2] != '/'
}

pub open spec fn ext_ts() -> Seq<char> { seq!['t', 's'] }
pub open spec fn ext_tsx() -> Seq<char> { seq!['t', 's', 'x'] }
pub open spec fn ext_js() -> Seq<char> { seq!['j', 's'] }
pub open spec fn ext_jsx() -> Seq<char> { seq!['j', 's', 'x'] }
pub open spec fn ext_mjs() -> Seq<char> { seq!['m', 'j', 's'] }
pub open spec fn ext_cjs() -> Seq<char> { seq!['c', 'j', 's'] }

/// The extension of `p` is one of the source-file extensions.
pub open spec fn has_source_extension(p: Seq<char>) -> bool {
    ||| has_extension(p, ext_ts())
    ||| has_extension(p, ext_tsx())
    ||| has_extension(p, ext_js())
    ||| has_extension(p, ext_jsx())
    ||| has_extension(p, ext_mjs())
    ||| has_extension(p, ext_cjs())
}

pub open spec fn seg_node_modules() -> Seq<char> {
    seq!['n', 'o', 'd', 'e', '_', 'm', 'o', 'd', 'u', 'l', 'e', 's']
}
pub open spec fn seg_git() -> Seq<char> { seq!['.', 'g', 'i', 't'] }
pub open spec fn seg_dist() -> Seq<char> { seq!['d', 'i', 's', 't'] }
pub open spec fn seg_build() -> Seq<char> { seq!['b', 'u', 'i', 'l', 'd'] }
pub open spec fn seg_coverage() -> Seq<char> { seq!['c', 'o', 'v', 'e', 'r', 'a', 'g', 'e'] }
pub open spec fn seg_svelte_kit() -> Seq<char> {
    seq!['.', 's', 'v', 'e', 'l', 't', 'e', '-', 'k', 'i', 't']
}

/// One of the segments of `p` is an excluded directory name.
pub open spec fn has_excluded_segment(p: Seq<char>) -> bool {
    ||| has_segment(p, seg_node_modules())
    ||| has_segment(p, seg_git())
    ||| has_segment(p, seg_dist())
    ||| has_segment(p, seg_build())
    ||| has_segment(p, seg_coverage())
    ||| has_segment(p, seg_svelte_kit())
}

/// Whether the file at path `p` is a candidate source file.
pub open spec fn is_source_path(p: Seq<char>) -> bool {
    has_source_extension(p) && !has_excluded_segment(p)
}

/// The paths of `ps` that are candidates, in their order.
pub open spec fn source_paths(ps: Seq<Seq<char>>) -> Seq<Seq<char>>
    decreases ps.len(),
{
    if ps.len() == 0 {
        Seq::empty()
    } else {
        let rest = source_paths(ps.drop_last());
        if is_source_path(ps.last()) {
            rest.push(ps.last())
        } else {
            rest
        }
    }
}

fn segment_at_exec(p: &Vec<char>, name: &Vec<char>, i: usize) -> (r: bool)
    requires
        i <= p.len(),
    ensures
        r == segment_at(p@, name@, i as int),
{
    if name.len() > p.len() - i {
        return false;
    }
    if i > 0 && p[i - 1] != '/' {
        return false;
    }
    let end = i + name.len();
    if end < p.len() && p[end] != '/' {
        return false;
    }
    let mut j: usize = 0;
    while j < name.len()
        invariant
            end == i + name.len(),
            end <= p.len(),
            j <= name.len(),
            forall|t: int| 0 <= t < j ==> p@[i + t] == name@[t],
        decreases name.len() - j,
    {
        if p[i + j] != name[j] {
            assert(p@.subrange(i as int, end as int)[j as int] != name@[j as int]);
            return false;
        }
        j = j + 1;
    }
    assert(p@.subrange(i as int, end as int) =~= name@);
    true
}

fn contains_segment(p: &Vec<char>, name: &Vec<char>) -> (r: bool)
    ensures
        r == has_segment(p@, name@),
{
    let mut i: usize = 0;
    while i < p.len()
        invariant
            i <= p.len(),
            forall|t: int| 0 <= t < i ==> !segment_at(p@, name@, t),
        decreases p.len() - i,
    {
        if segment_at_exec(p, name, i) {
            return true;
        }
        i = i + 1;
    }
    if segment_at_exec(p, name, p.len()) {
        return true;
    }
    assert forall|t: int| !segment_at(p@, name@, t) by {
        if 0 <= t <= p.len() {
        }
    }
    false
}

pub(crate) fn ends_with_extension(p: &Vec<char>, ext: &Vec<char>) -> (r: bool)
    ensures
        r == has_extension(p@, ext@),
{
    if p.len() < 2 || p.len() - 2 < ext.len() {
        return false;
    }
    let k = p.len() - ext.len();
    if p[k - 1] != '.' || p[k - 2] == '/' {
        return false;
    }
    let mut j: usize = 0;
    while j < ext.len()
        invariant
            k == p.len() - ext.len(),
            k >= 2,
            j <= ext.len(),
            forall|t: int| 0 <= t < j ==> p@[k + t] == ext@[t],
        decreases ext.len() - j,
    {
        if p[k + j] != ext[j] {
            assert(p@.subrange(k as int, p.len() as int)[j as int] != ext@[j as int]);
            return false;
        }
        j = j + 1;
    }
    assert(p@.subrange(k as int, p.len() as int) =~= ext@);
    true
}

/// Whether the file at `path` is a candidate source file.
pub fn is_source_file(path: &str) -> (r: bool)
    ensures
        r == is_source_path(path@),
{
    let p = chars_of(path);
    let source_ext = ends_with_extension(&p, &vec!['t', 's'])
        || ends_with_extension(&p, &vec!['t', 's', 'x'])
        || ends_with_extension(&p, &vec!['j', 's'])
        || ends_with_extension(&p, &vec!['j', 's', 'x'])
        || ends_with_extension(&p, &vec!['m', 'j', 's'])
        || ends_with_extension(&p, &vec!['c', 'j', 's']);
    if !source_ext {
        return false;
    }
    let excluded = contains_segment(&p, &vec!['n', 'o', 'd', 'e', '_', 'm', 'o', 'd', 'u', 'l', 'e', 's'])
        || contains_segment(&p, &vec!['.', 'g', 'i', 't'])
        || contains_segment(&p, &vec!['d', 'i', 's', 't'])
        || contains_segment(&p, &vec!['b', 'u', 'i', 'l', 'd'])
        || contains_segment(&p, &vec!['c', 'o', 'v', 'e', 'r', 'a', 'g', 'e'])
        || contains_segment(&p, &vec!['.', 's', 'v', 'e', 'l', 't', 'e', '-', 'k', 'i', 't']);
    !excluded
}

/// The candidate source files among the paths of the files found in a tree,
/// in the order given.
pub fn find_source_files(paths: &Vec<String>) -> (r: Vec<File>)
    ensures
        file_paths(r@) == source_paths(string_views(paths@)),
{
    let mut r: Vec<File> = Vec::new();
    let mut i: usize = 0;
    while i < paths.len()
        invariant
            i <= paths.len(),
            file_paths(r@) == source_paths(string_views(paths@.subrange(0, i as int))),
        decreases paths.len() - i,
    {
        let ghost before = paths@.subrange(0, i as int);
        let ghost after = paths@.subrange(0, i + 1);
        assert(string_views(after).drop_last() =~= string_views(before));
        assert(string_views(after).last() == paths@[i as int]@);
        if is_source_file(paths[i].as_str()) {
            let f = File::new(paths[i].clone());
            r.push(f);
            assert(file_paths(r@) =~= source_paths(string_views(before)).push(paths@[i as int]@));
        }
        i = i + 1;
    }
    assert(paths@.subrange(0, paths.len() as int) =~= paths@);
    r
}

/// A tree in which no file has a source-file extension yields no candidate.
pub proof fn lemma_no_source_extension_finds_nothing(ps: Seq<Seq<char>>)
    requires
        forall|i: int| 0 <= i < ps.len() ==> !has_source_extension(#[trigger] ps[i]),
    ensures
        source_paths(ps).len() == 0,
    decreases ps.len(),
{
    if ps.len() > 0 {
        lemma_no_source_extension_finds_nothing(ps.drop_last());
        assert(!has_source_extension(ps[ps.len() - 1]));
    }
}

/// A file under an excluded directory is never a candidate, whatever its
/// extension.
pub proof fn lemma_excluded_segment_never_found(ps: Seq<Seq<char>>, p: Seq<char>)
    requires
        has_excluded_segment(p),
    ensures
        !source_paths(ps).contains(p),
    decreases ps.len(),
{
    if ps.len() > 0 {
        lemma_excluded_segment_never_found(ps.drop_last(), p);
        let rest = source_paths(ps.drop_last());
        if is_source_path(ps.last()) {
            assert forall|k: int| 0 <= k < rest.len() + 1 implies rest.push(ps.last())[k] != p by {
                if k < rest.len() {
                    assert(rest.push(ps.last())[k] == rest[k]);
                }
            }
        }
    }
}

} // verus!
