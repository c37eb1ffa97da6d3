//! The graph view's state: the dependency graph and the camera that shows it.
use vstd::prelude::*;

use crate::camera::{Camera, VIEWPORT_LIMIT};
use crate::descriptor::{create_graph_descriptor, describes_edge, describes_node, GraphDescriptor};
use crate::file::{file_paths, File};
use crate::graph::{added_paths, import_edges, import_paths, index_in, point_in_bounds, Graph, Point};

verus! {

/// The graph and the camera. The camera is set up once, from the first
/// viewport size that becomes known, and kept from then on.
pub struct GraphState {
    pub graph: Graph,
    pub camera: Option<Camera>,
}

impl GraphState {
    pub open spec fn wf(&self) -> bool {
        &&& self.graph.wf()
        &&& self.camera matches Some(c) ==> c.wf()
    }

    /// An empty graph, with no camera yet.
    pub fn new() -> (r: GraphState)
        ensures
            r.wf(),
            r.graph@.files.len() == 0,
            r.graph@.edges.len() == 0,
            r.camera.is_none(),
    {
        GraphState { graph: Graph::new(), camera: None }
    }

    /// An empty graph whose starting positions are drawn from a generator
    /// seeded with `seed`, with no camera yet.
    pub fn with_seed(seed: u64) -> (r: GraphState)
        ensures
            r.wf(),
            r.graph@.files.len() == 0,
            r.graph@.edges.len() == 0,
            r.camera.is_none(),
    {
        GraphState { graph: Graph::with_seed(seed), camera: None }
    }

    /// Sets up the camera for a viewport of `width` by `height` pixels, unless
    /// it was set up already.
    pub fn init_camera(&mut self, width: i64, height: i64)
        requires
            old(self).wf(),
            0 <= width <= VIEWPORT_LIMIT,
            0 <= height <= VIEWPORT_LIMIT,
        ensures
            final(self).wf(),
            final(self).graph == old(self).graph,
            old(self).camera.is_some() ==> final(self).camera == old(self).camera,
            old(self).camera.is_none() ==> final(self).camera == Some(
                Camera {
                    center: Point { x: (width * 500) as i64, y: (height * 500) as i64 },
                    zoom: 1000,
                    viewport_width: width,
                    viewport_height: height,
                },
            ),
    {
        if self.camera.is_some() {
            return;
        }
        self.camera = Some(Camera::for_viewport(width, height));
    }

    /// Adds a node for `file` unless the graph has one (see `Graph::add_file`).
    pub fn add_file(&mut self, file: File)
        requires
            old(self).wf(),
        ensures
            final(self).wf(),
            final(self).camera == old(self).camera,
            old(self).graph@.has_file(file.path@) ==> final(self).graph@ == old(self).graph@,
            !old(self).graph@.has_file(file.path@) ==> {
                &&& final(self).graph@.files == old(self).graph@.files.push(file.path@)
                &&& final(self).graph@.edges == old(self).graph@.edges
                &&& final(self).graph@.positions.drop_last() == old(self).graph@.positions
            },
    {
        self.graph.add_file(file);
    }

    /// Adds an edge between the nodes of `a` and `b`, where both exist (see
    /// `Graph::add_relation`).
    pub fn add_relation(&mut self, a: File, b: File)
        requires
            old(self).wf(),
        ensures
            final(self).wf(),
            final(self).camera == old(self).camera,
            final(self).graph@.files == old(self).graph@.files,
            final(self).graph@.positions == old(self).graph@.positions,
            old(self).graph@.has_file(a.path@) && old(self).graph@.has_file(b.path@)
                ==> final(self).graph@.edges == old(self).graph@.edges.push(
                (index_in(old(self).graph@.files, a.path@), index_in(old(self).graph@.files, b.path@)),
            ),
            !(old(self).graph@.has_file(a.path@) && old(self).graph@.has_file(b.path@))
                ==> final(self).graph@.edges == old(self).graph@.edges,
    {
        self.graph.add_relation(a, b);
    }

    /// Adds the files of a project and the edges of their imports (see
    /// `Graph::feed`).
    pub fn feed(&mut self, files: &Vec<File>, imports: &Vec<Vec<File>>)
        requires
            old(self).wf(),
            files.len() == imports.len(),
        ensures
            final(self).wf(),
            final(self).camera == old(self).camera,
            final(self).graph@.files == added_paths(old(self).graph@.files, file_paths(files@)),
            final(self).graph@.edges == old(self).graph@.edges + import_edges(
                final(self).graph@.files,
                file_paths(files@),
                import_paths(imports@),
            ),
    {
        self.graph.feed(files, imports);
    }

    /// Moves node `i` to `p` (a layout step's result).
    pub fn set_position(&mut self, i: usize, p: Point)
        requires
            old(self).wf(),
            i < old(self).graph@.files.len(),
            point_in_bounds(p),
        ensures
            final(self).wf(),
            final(self).camera == old(self).camera,
            final(self).graph@.files == old(self).graph@.files,
            final(self).graph@.edges == old(self).graph@.edges,
            final(self).graph@.positions == old(self).graph@.positions.update(i as int, p),
    {
        self.graph.set_position(i, p);
    }

    /// What to draw: nothing until the camera is set up, then every node and
    /// edge of the graph as the camera shows it.
    pub fn descriptor(&self) -> (r: Option<GraphDescriptor>)
        requires
            self.wf(),
        ensures
            self.camera.is_none() ==> r.is_none(),
            self.camera matches Some(c) ==> r matches Some(d) && {
                &&& d.nodes@.len() == self.graph@.files.len()
                &&& forall|i: int| 0 <= i < d.nodes@.len() ==> describes_node(#[trigger] d.nodes@[i], self.graph, c, i)
                &&& d.edges@.len() == self.graph@.edges.len()
                &&& forall|k: int| 0 <= k < d.edges@.len() ==> describes_edge(#[trigger] d.edges@[k], self.graph, c, k)
            },
    {
        match &self.camera {
            Some(c) => Some(create_graph_descriptor(&self.graph, c)),
            None => None,
        }
    }
}

} // verus!
