//! The dependency graph: one node per file, undirected edges between nodes.
//!
//! Positions are in world space, as integers counting thousandths of a pixel
//! (at zoom 1). Every coordinate stays within `COORD_LIMIT` of the origin.
use vstd::prelude::*;

use crate::file::{file_paths, File};

verus! {

/// The largest magnitude of a world coordinate.
pub const COORD_LIMIT: i64 = 1_099_511_627_776;

/// The largest magnitude of a coordinate of a node's starting position: new
/// nodes are placed within 50 pixels of the origin on each axis.
pub const START_JITTER: i32 = 50_000;

/// A point of world space, in thousandths of a pixel.
#[derive(Debug, Clone, Copy, PartialEq, Eq, Structural)]
pub struct Point {
    pub x: i64,
    pub y: i64,
}

pub open spec fn point_in_bounds(p: Point) -> bool {
    -COORD_LIMIT <= p.x <= COORD_LIMIT && -COORD_LIMIT <= p.y <= COORD_LIMIT
}

/// What a graph holds: the paths of its files, the position of each, and its
/// edges as pairs of node indices, all in the order of insertion.
pub struct GraphModel {
    pub files: Seq<Seq<char>>,
    pub positions: Seq<Point>,
    pub edges: Seq<(int, int)>,
}

impl GraphModel {
    pub open spec fn wf(self) -> bool {
        &&& self.positions.len() == self.files.len()
        &&& forall|i: int, j: int|
            0 <= i < self.files.len() && 0 <= j < self.files.len() && i != j
                ==> self.files[i] != self.files[j]
        &&& forall|i: int| 0 <= i < self.positions.len() ==> point_in_bounds(#[trigger] self.positions[i])
        &&& forall|k: int| 0 <= k < self.edges.len()
            ==> 0 <= (#[trigger] self.edges[k]).0 < self.files.len() && 0 <= self.edges[k].1 < self.files.len()
    }

    /// Whether a node of the graph has the path `p`.
    pub open spec fn has_file(self, p: Seq<char>) -> bool {
        self.files.contains(p)
    }
}

/// The index of the first element of `s` that equals `p`, or -1.
pub open spec fn index_in(s: Seq<Seq<char>>, p: Seq<char>) -> int
    decreases s.len(),
{
    if s.len() == 0 {
        -1
    } else if index_in(s.drop_last(), p) >= 0 {
        index_in(s.drop_last(), p)
    } else if s.last() == p {
        s.len() - 1
    } else {
        -1
    }
}

proof fn lemma_index_in(s: Seq<Seq<char>>, p: Seq<char>)
    ensures
        -1 <= index_in(s, p) < s.len(),
        index_in(s, p) >= 0 ==> s[index_in(s, p)] == p,
        index_in(s, p) >= 0 ==> forall|j: int| 0 <= j < index_in(s, p) ==> s[j] != p,
        index_in(s, p) < 0 ==> !s.contains(p),
    decreases s.len(),
{
    if s.len() > 0 {
        let q = s.drop_last();
        lemma_index_in(q, p);
        if index_in(q, p) < 0 {
            assert forall|j: int| 0 <= j < s.len() - 1 implies s[j] != p by {
                assert(s[j] == q[j]);
                assert(!q.contains(p));
            }
        } else {
            assert forall|j: int| 0 <= j < index_in(s, p) implies s[j] != p by {
                assert(s[j] == q[j]);
            }
        }
    }
}

pub open spec fn edge_views(es: Seq<(usize, usize)>) -> Seq<(int, int)> {
    es.map_values(|e: (usize, usize)| (e.0 as int, e.1 as int))
}

/// The paths of `files` once each path of `ps` was added in turn, where it is
/// not there yet.
pub open spec fn added_paths(files: Seq<Seq<char>>, ps: Seq<Seq<char>>) -> Seq<Seq<char>>
    decreases ps.len(),
{
    if ps.len() == 0 {
        files
    } else {
        let f = added_paths(files, ps.drop_last());
        if f.contains(ps.last()) {
            f
        } else {
            f.push(ps.last())
        }
    }
}

/// The edges that relating `a` to each of `bs` in turn adds to a graph with
/// the paths `fs`: one for each of `bs` where both ends are there.
pub open spec fn relation_edges(fs: Seq<Seq<char>>, a: Seq<char>, bs: Seq<Seq<char>>) -> Seq<(int, int)>
    decreases bs.len(),
{
    if bs.len() == 0 {
        Seq::empty()
    } else {
        let e = relation_edges(fs, a, bs.drop_last());
        if fs.contains(a) && fs.contains(bs.last()) {
            e.push((index_in(fs, a), index_in(fs, bs.last())))
        } else {
            e
        }
    }
}

/// The edges that relating each of `importers` to what it imports adds to a
/// graph with the paths `fs`, importer after importer.
pub open spec fn import_edges(
    fs: Seq<Seq<char>>,
    importers: Seq<Seq<char>>,
    imports: Seq<Seq<Seq<char>>>,
) -> Seq<(int, int)>
    decreases importers.len(),
{
    if importers.len() == 0 || imports.len() == 0 {
        Seq::empty()
    } else {
        import_edges(fs, importers.drop_last(), imports.drop_last()) + relation_edges(
            fs,
            importers.last(),
            imports.last(),
        )
    }
}

pub open spec fn import_paths(imports: Seq<Vec<File>>) -> Seq<Seq<Seq<char>>> {
    imports.map_values(|v: Vec<File>| file_paths(v@))
}

/// Relies on quad_rand::gen_range: a number drawn from the generator that the
/// process shares, between the two bounds.
#[verifier::external_body]
fn random_between(low: i32, high: i32) -> (r: i32)
    requires
        -START_JITTER <= low < high <= START_JITTER,
    ensures
        low <= r <= high,
{
    quad_rand::gen_range(low, high)
}

/// Relies on quad_rand::srand: seeds the generator that the process shares.
#[verifier::external_body]
fn seed_generator(seed: u64) {
    quad_rand::srand(seed)
}

/// The dependency graph, sole owner of its nodes and edges.
pub struct Graph {
    files: Vec<File>,
    positions: Vec<Point>,
    edges: Vec<(usize, usize)>,
}

impl View for Graph {
    type V = GraphModel;

    closed spec fn view(&self) -> GraphModel {
        GraphModel {
            files: self.files@.map_values(|f: File| f.path@),
            positions: self.positions@,
            edges: edge_views(self.edges@),
        }
    }
}

impl Graph {
    pub open spec fn wf(&self) -> bool {
        self@.wf()
    }

    /// An empty graph.
    pub fn new() -> (r: Graph)
        ensures
            r.wf(),
            r@.files.len() == 0,
            r@.edges.len() == 0,
    {
        let r = Graph { files: Vec::new(), positions: Vec::new(), edges: Vec::new() };
        assert(r@.files =~= Seq::empty());
        assert(r@.positions =~= Seq::empty());
        assert(r@.edges =~= Seq::empty());
        r
    }

    /// An empty graph whose starting positions come from a generator seeded
    /// with `seed`, so that a layout can be reproduced.
    pub fn with_seed(seed: u64) -> (r: Graph)
        ensures
            r.wf(),
            r@.files.len() == 0,
            r@.edges.len() == 0,
    {
        seed_generator(seed);
        Graph::new()
    }

    /// The index of the node of `file`, if it was added.
    pub fn index_of(&self, file: &File) -> (r: Option<usize>)
        ensures
            match r {
                Some(i) => {
                    &&& i == index_in(self@.files, file.path@)
                    &&& 0 <= i < self@.files.len()
                    &&& self@.files[i as int] == file.path@
                    &&& self@.has_file(file.path@)
                },
                None => index_in(self@.files, file.path@) == -1 && !self@.has_file(file.path@),
            },
    {
        proof {
            lemma_index_in(self@.files, file.path@);
        }
        let mut i: usize = 0;
        while i < self.files.len()
            invariant
                i <= self.files.len(),
                self@.files.len() == self.files.len(),
                forall|j: int| 0 <= j < i ==> self@.files[j] != file.path@,
            decreases self.files.len() - i,
        {
            assert(self@.files[i as int] == self.files@[i as int].path@);
            if self.files[i].same_as(file) {
                assert(self@.files.contains(file.path@));
                proof {
                    lemma_index_in(self@.files, file.path@);
                    let k = index_in(self@.files, file.path@);
                    assert(k >= 0);
                    if k < i {
                        assert(self@.files[k] != file.path@);
                    }
                    if k > i {
                        assert(self@.files[i as int] != file.path@);
                    }
                }
                return Some(i);
            }
            i = i + 1;
        }
        assert(!self@.files.contains(file.path@));
        None
    }

    /// Adds a node for `file`, at a position drawn near the origin, unless the
    /// graph has one already: then nothing changes.
    pub fn add_file(&mut self, file: File)
        requires
            old(self).wf(),
        ensures
            final(self).wf(),
            old(self)@.has_file(file.path@) ==> final(self)@ == old(self)@,
            !old(self)@.has_file(file.path@) ==> {
                &&& final(self)@.files == old(self)@.files.push(file.path@)
                &&& final(self)@.edges == old(self)@.edges
                &&& final(self)@.positions.drop_last() == old(self)@.positions
                &&& -START_JITTER <= final(self)@.positions.last().x <= START_JITTER
                &&& -START_JITTER <= final(self)@.positions.last().y <= START_JITTER
            },
    {
        if self.index_of(&file).is_some() {
            return;
        }
        let x = random_between(-START_JITTER, START_JITTER);
        let y = random_between(-START_JITTER, START_JITTER);
        let position = Point { x: x as i64, y: y as i64 };
        let ghost before = self@;
        let ghost path = file.path@;
        self.files.push(file);
        self.positions.push(position);
        assert(self@.files =~= before.files.push(path));
        assert(self@.positions =~= before.positions.push(position));
        assert(self@.positions.drop_last() =~= before.positions);
        assert(self@.edges =~= before.edges);
    }

    /// Adds an edge between the nodes of `a` and `b`; where either file was
    /// never added, nothing changes.
    pub fn add_relation(&mut self, a: File, b: File)
        requires
            old(self).wf(),
        ensures
            final(self).wf(),
            final(self)@.files == old(self)@.files,
            final(self)@.positions == old(self)@.positions,
            old(self)@.has_file(a.path@) && old(self)@.has_file(b.path@) ==> final(self)@.edges
                == old(self)@.edges.push(
                (index_in(old(self)@.files, a.path@), index_in(old(self)@.files, b.path@)),
            ),
            !(old(self)@.has_file(a.path@) && old(self)@.has_file(b.path@)) ==> final(self)@.edges
                == old(self)@.edges,
    {
        proof {
            lemma_index_in(self@.files, a.path@);
            lemma_index_in(self@.files, b.path@);
        }
        let ia = self.index_of(&a);
        let ib = self.index_of(&b);
        match (ia, ib) {
            (Some(i), Some(j)) => {
                let ghost before = self@;
                self.edges.push((i, j));
                assert(self@.edges =~= before.edges.push((i as int, j as int)));
                assert(self@.files =~= before.files);
                assert(self@.positions =~= before.positions);
            },
            _ => {},
        }
    }

    /// Adds a node for each of `files`, then, for each of them in turn, an
    /// edge to each file that it imports (`imports[i]` for `files[i]`), where
    /// that file has a node.
    pub fn feed(&mut self, files: &Vec<File>, imports: &Vec<Vec<File>>)
        requires
            old(self).wf(),
            files.len() == imports.len(),
        ensures
            final(self).wf(),
            final(self)@.files == added_paths(old(self)@.files, file_paths(files@)),
            final(self)@.edges == old(self)@.edges + import_edges(
                final(self)@.files,
                file_paths(files@),
                import_paths(imports@),
            ),
    {
        let ghost start = self@;
        let mut i: usize = 0;
        while i < files.len()
            invariant
                self.wf(),
                i <= files.len(),
                self@.files == added_paths(start.files, file_paths(files@.subrange(0, i as int))),
                self@.edges == start.edges,
            decreases files.len() - i,
        {
            let ghost next = file_paths(files@.subrange(0, i + 1));
            assert(next.drop_last() =~= file_paths(files@.subrange(0, i as int)));
            assert(next.last() == files@[i as int].path@);
            self.add_file(File::new(files[i].path.clone()));
            i = i + 1;
        }
        assert(files@.subrange(0, files.len() as int) =~= files@);
        let ghost fs = self@.files;
        let ghost importers = file_paths(files@);
        let ghost all_imports = import_paths(imports@);
        let mut i: usize = 0;
        while i < files.len()
            invariant
                self.wf(),
                files.len() == imports.len(),
                i <= files.len(),
                fs == self@.files,
                importers == file_paths(files@),
                all_imports == import_paths(imports@),
                self@.edges == start.edges + import_edges(
                    fs,
                    importers.subrange(0, i as int),
                    all_imports.subrange(0, i as int),
                ),
            decreases files.len() - i,
        {
            let ghost done = import_edges(fs, importers.subrange(0, i as int), all_imports.subrange(0, i as int));
            let targets = &imports[i];
            let mut j: usize = 0;
            while j < targets.len()
                invariant
                    self.wf(),
                    fs == self@.files,
                    i < files.len(),
                    importers == file_paths(files@),
                    targets@ == imports@[i as int]@,
                    j <= targets.len(),
                    self@.edges == start.edges + done + relation_edges(
                        fs,
                        files@[i as int].path@,
                        file_paths(targets@.subrange(0, j as int)),
                    ),
                decreases targets.len() - j,
            {
                let ghost next = file_paths(targets@.subrange(0, j + 1));
                assert(next.drop_last() =~= file_paths(targets@.subrange(0, j as int)));
                assert(next.last() == targets@[j as int].path@);
                self.add_relation(File::new(files[i].path.clone()), File::new(targets[j].path.clone()));
                j = j + 1;
                assert(self@.edges =~= start.edges + done + relation_edges(
                    fs,
                    files@[i as int].path@,
                    file_paths(targets@.subrange(0, j as int)),
                ));
            }
            assert(targets@.subrange(0, targets.len() as int) =~= targets@);
            let ghost ni = importers.subrange(0, i + 1);
            let ghost nm = all_imports.subrange(0, i + 1);
            assert(ni.drop_last() =~= importers.subrange(0, i as int));
            assert(nm.drop_last() =~= all_imports.subrange(0, i as int));
            assert(ni.last() == files@[i as int].path@);
            assert(nm.last() == file_paths(imports@[i as int]@));
            i = i + 1;
            assert(self@.edges =~= start.edges + import_edges(
                fs,
                importers.subrange(0, i as int),
                all_imports.subrange(0, i as int),
            ));
        }
        assert(importers.subrange(0, files.len() as int) =~= importers);
        assert(all_imports.subrange(0, files.len() as int) =~= all_imports);
    }

    /// The number of nodes.
    pub fn node_count(&self) -> (r: usize)
        ensures
            r == self@.files.len(),
    {
        self.files.len()
    }

    /// The number of edges.
    pub fn edge_count(&self) -> (r: usize)
        ensures
            r == self@.edges.len(),
    {
        self.edges.len()
    }

    /// The file of node `i`.
    pub fn file(&self, i: usize) -> (r: &File)
        requires
            i < self@.files.len(),
        ensures
            r.path@ == self@.files[i as int],
    {
        &self.files[i]
    }

    /// The position of node `i`.
    pub fn position(&self, i: usize) -> (r: Point)
        requires
            self.wf(),
            i < self@.files.len(),
        ensures
            r == self@.positions[i as int],
    {
        self.positions[i]
    }

    /// The two node indices of edge `k`.
    pub fn edge(&self, k: usize) -> (r: (usize, usize))
        requires
            k < self@.edges.len(),
        ensures
            r.0 as int == self@.edges[k as int].0,
            r.1 as int == self@.edges[k as int].1,
    {
        self.edges[k]
    }

    /// The positions of all nodes, in node order.
    pub fn positions(&self) -> (r: Vec<Point>)
        ensures
            r@ == self@.positions,
    {
        self.positions.clone()
    }

    /// Moves node `i` to `p`; nothing else changes.
    pub fn set_position(&mut self, i: usize, p: Point)
        requires
            old(self).wf(),
            i < old(self)@.files.len(),
            point_in_bounds(p),
        ensures
            final(self).wf(),
            final(self)@.files == old(self)@.files,
            final(self)@.edges == old(self)@.edges,
            final(self)@.positions == old(self)@.positions.update(i as int, p),
    {
        let ghost before = self@;
        self.positions.set(i, p);
        assert(self@.files == before.files);
        assert(self@.edges == before.edges);
        assert(self@.positions =~= before.positions.update(i as int, p));
        assert forall|k: int| 0 <= k < self@.positions.len() implies point_in_bounds(
            #[trigger] self@.positions[k],
        ) by {
            if k != i {
                assert(self@.positions[k] == before.positions[k]);
            }
        }
    }
}

} // verus!
