//! A render-ready snapshot of the graph as the camera shows it.
use vstd::prelude::*;

use crate::camera::{Camera, ScreenPoint};
use crate::file::File;
use crate::graph::Graph;

verus! {

/// The radius of a node, in world space (10 pixels at zoom 1).
pub const NODE_RADIUS: i64 = 10_000;

/// The width of an edge, in world space (2 pixels at zoom 1).
pub const EDGE_WIDTH: i64 = 2_000;

/// A node as drawn: its file, its place and its radius on the viewport.
pub struct NodeDescriptor {
    pub file: File,
    pub position: ScreenPoint,
    pub radius: i64,
}

/// An edge as drawn: its two ends and its width on the viewport.
pub struct EdgeDescriptor {
    pub source_position: ScreenPoint,
    pub target_position: ScreenPoint,
    pub width: i64,
}

/// Every node and every edge of a graph, as drawn.
pub struct GraphDescriptor {
    pub edges: Vec<EdgeDescriptor>,
    pub nodes: Vec<NodeDescriptor>,
}

/// Node `i` of `g` as `c` shows it.
pub open spec fn describes_node(d: NodeDescriptor, g: Graph, c: Camera, i: int) -> bool {
    &&& d.file.path@ == g@.files[i]
    &&& d.position == c.screen_of(g@.positions[i])
    &&& d.radius as int == c.scaled(NODE_RADIUS as int)
}

/// Edge `k` of `g` as `c` shows it.
pub open spec fn describes_edge(d: EdgeDescriptor, g: Graph, c: Camera, k: int) -> bool {
    &&& d.source_position == c.screen_of(g@.positions[g@.edges[k].0])
    &&& d.target_position == c.screen_of(g@.positions[g@.edges[k].1])
    &&& d.width as int == c.scaled(EDGE_WIDTH as int)
}

/// One descriptor for each node of `graph`, in node order, and one for each
/// edge, in edge order, placed on the viewport by `camera`.
pub fn create_graph_descriptor(graph: &Graph, camera: &Camera) -> (r: GraphDescriptor)
    requires
        graph.wf(),
        camera.wf(),
    ensures
        r.nodes@.len() == graph@.files.len(),
        forall|i: int| 0 <= i < r.nodes@.len() ==> describes_node(#[trigger] r.nodes@[i], *graph, *camera, i),
        r.edges@.len() == graph@.edges.len(),
        forall|k: int| 0 <= k < r.edges@.len() ==> describes_edge(#[trigger] r.edges@[k], *graph, *camera, k),
{
    let radius = camera.value_to_screen(NODE_RADIUS);
    let width = camera.value_to_screen(EDGE_WIDTH);
    let mut nodes: Vec<NodeDescriptor> = Vec::new();
    let n = graph.node_count();
    let mut i: usize = 0;
    while i < n
        invariant
            graph.wf(),
            camera.wf(),
            n == graph@.files.len(),
            i <= n,
            radius as int == camera.scaled(NODE_RADIUS as int),
            nodes@.len() == i,
            forall|j: int| 0 <= j < i ==> describes_node(#[trigger] nodes@[j], *graph, *camera, j),
        decreases n - i,
    {
        let file = File::new(graph.file(i).path.clone());
        let position = camera.world_to_screen(graph.position(i));
        nodes.push(NodeDescriptor { file, position, radius });
        i = i + 1;
    }
    let mut edges: Vec<EdgeDescriptor> = Vec::new();
    let m = graph.edge_count();
    let mut k: usize = 0;
    while k < m
        invariant
            graph.wf(),
            camera.wf(),
            m == graph@.edges.len(),
            k <= m,
            width as int == camera.scaled(EDGE_WIDTH as int),
            edges@.len() == k,
            forall|j: int| 0 <= j < k ==> describes_edge(#[trigger] edges@[j], *graph, *camera, j),
        decreases m - k,
    {
        let (a, b) = graph.edge(k);
        assert(0 <= graph@.edges[k as int].0 < graph@.files.len());
        let source_position = camera.world_to_screen(graph.position(a));
        let target_position = camera.world_to_screen(graph.position(b));
        edges.push(EdgeDescriptor { source_position, target_position, width });
        k = k + 1;
    }
    GraphDescriptor { edges, nodes }
}

} // verus!
