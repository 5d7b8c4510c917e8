//! The finished galaxy.

use vstd::prelude::*;
use petgraph::graph::Graph;
use crate::frame::{EdgeType, NodeType};
use crate::lemmas::lemma_frame_pairs;
use crate::model::{census, grows, shaped, sound};
use crate::point::DataPoint;
use crate::store::{
    frame_pairs, graph_edge_count, graph_endpoints, graph_links, graph_node, graph_node_count, graph_nodes,
    store_frame_only, store_links, store_nodes,
};

verus! {

/// A galaxy: its nodes, each a position with its classification, and the
/// `Frame` edges between them, without labels.
pub struct Galaxy {
    graph: Graph<DataPoint<NodeType>, ()>,
}

/// A graph written out as plain values: the payload of every node, by
/// identifier, and every edge as the pair of its source and its target.
pub struct Chart<E> {
    pub nodes: Vec<E>,
    pub links: Vec<(usize, usize)>,
}

/// The points of a galaxy that are still to come, in the order of their
/// identifiers.
pub struct GalaxyPoints {
    graph: Graph<DataPoint<NodeType>, ()>,
    points: usize,
}

/// Every edge leads from an older node to a younger one that exists, and to
/// a kind that grows out of the kind it comes from.
pub open spec fn causal(links: Seq<(usize, usize)>, nodes: Seq<DataPoint<NodeType>>) -> bool {
    forall|i: int|
        0 <= i < links.len() ==> {
            &&& (#[trigger] links[i]).0 < links[i].1
            &&& links[i].1 < nodes.len()
            &&& grows(nodes[links[i].0 as int].data, nodes[links[i].1 as int].data)
        }
}

impl Galaxy {
    /// The nodes, by identifier.
    pub closed spec fn nodes(&self) -> Seq<DataPoint<NodeType>> {
        graph_nodes(self.graph)
    }

    /// The edges, in the order in which they were added.
    pub closed spec fn links(&self) -> Seq<(usize, usize)> {
        graph_links(self.graph)
    }

    /// What holds of every galaxy: it has a root, which is its first node
    /// and its only root; its edges are causal and follow the kinds of its
    /// nodes; and every link of an arm, every branch point and every cloud
    /// point has one edge, the one it hangs on.
    pub open spec fn wf(&self) -> bool {
        &&& 1 <= self.nodes().len() <= u32::MAX
        &&& self.links().len() <= u32::MAX
        &&& self.nodes()[0].data == NodeType::Root
        &&& census(self.nodes(), NodeType::Root) == 1
        &&& causal(self.links(), self.nodes())
        &&& self.links().len() == census(self.nodes(), NodeType::Arm) + census(self.nodes(), NodeType::Ext)
            + census(self.nodes(), NodeType::System)
    }

    /// Whether `graph` holds what the galaxy holds.
    pub open spec fn is_inner(&self, graph: Graph<DataPoint<NodeType>, ()>) -> bool {
        &&& graph_nodes(graph) == self.nodes()
        &&& graph_links(graph) == self.links()
    }

    /// Whether `chart` is the galaxy with every node replaced by an image of
    /// it under `f`, and the edges as they are.
    pub open spec fn is_mapped<F: Fn(&DataPoint<NodeType>) -> E, E>(&self, f: F, chart: Chart<E>) -> bool {
        &&& chart.nodes@.len() == self.nodes().len()
        &&& forall|i: int|
            0 <= i < self.nodes().len() ==> f.ensures((&self.nodes()[i],), #[trigger] chart.nodes@[i])
        &&& chart.links@ == self.links()
    }

    /// The galaxy of a store: all of its nodes, and its `Frame` edges.
    pub(crate) fn from_frame(frame: &Graph<DataPoint<NodeType>, EdgeType>) -> (galaxy: Galaxy)
        requires
            1 <= store_nodes(*frame).len() <= u32::MAX,
            store_links(*frame).len() <= u32::MAX,
            store_nodes(*frame)[0].data == NodeType::Root,
            census(store_nodes(*frame), NodeType::Root) == 1,
            sound(store_links(*frame), store_nodes(*frame).len()),
            shaped(store_links(*frame), store_nodes(*frame)),
            frame_pairs(store_links(*frame)).len() == census(store_nodes(*frame), NodeType::Arm) + census(
                store_nodes(*frame),
                NodeType::Ext,
            ) + census(store_nodes(*frame), NodeType::System),
        ensures
            galaxy.nodes() == store_nodes(*frame),
            galaxy.links() == frame_pairs(store_links(*frame)),
            galaxy.wf(),
    {
        proof {
            lemma_frame_pairs(store_links(*frame), store_nodes(*frame));
        }
        Galaxy { graph: store_frame_only(frame) }
    }

    /// The graph itself.
    pub fn into_inner(self) -> (graph: Graph<DataPoint<NodeType>, ()>)
        ensures
            self.is_inner(graph),
    {
        self.graph
    }

    /// The galaxy with every node replaced by its image under `f`, and the
    /// edges as they are.
    pub fn into_mapped<F, E>(self, f: F) -> (chart: Chart<E>) where F: Fn(&DataPoint<NodeType>) -> E
        requires
            self.wf(),
            forall|i: int| 0 <= i < self.nodes().len() ==> f.requires((&#[trigger] self.nodes()[i],)),
        ensures
            self.is_mapped(f, chart),
    {
        let count = graph_node_count(&self.graph);
        let mut nodes: Vec<E> = Vec::new();
        let mut i: usize = 0;
        while i < count
            invariant
                i <= count == graph_nodes(self.graph).len() <= u32::MAX,
                nodes@.len() == i,
                forall|k: int|
                    0 <= k < graph_nodes(self.graph).len() ==> f.requires(
                        (&#[trigger] graph_nodes(self.graph)[k],),
                    ),
                forall|k: int|
                    0 <= k < i ==> f.ensures((&graph_nodes(self.graph)[k],), #[trigger] nodes@[k]),
            decreases count - i,
        {
            let weight = graph_node(&self.graph, i);
            nodes.push(f(&weight));
            i += 1;
        }
        let total = graph_edge_count(&self.graph);
        let mut links: Vec<(usize, usize)> = Vec::new();
        let mut e: usize = 0;
        while e < total
            invariant
                e <= total == graph_links(self.graph).len() <= u32::MAX,
                links@ == graph_links(self.graph).take(e as int),
            decreases total - e,
        {
            let ends = graph_endpoints(&self.graph, e);
            links.push(ends.unwrap());
            e += 1;
        }
        assert(links@ =~= graph_links(self.graph));
        Chart { nodes, links }
    }

    /// The points of the galaxy, from the first node on.
    pub fn into_iter(self) -> (points: GalaxyPoints)
        requires
            self.wf(),
        ensures
            points.wf(),
            points.rest() == self.nodes(),
    {
        GalaxyPoints::new(self.graph)
    }
}

/// Mapping keeps the shape: whatever `f` is, the mapped galaxy has as many
/// nodes as the graph of the galaxy, and the same edges.
pub proof fn lemma_mapping_keeps_the_shape<F, E>(
    galaxy: Galaxy,
    f: F,
    chart: Chart<E>,
    graph: Graph<DataPoint<NodeType>, ()>,
) where F: Fn(&DataPoint<NodeType>) -> E
    requires
        galaxy.is_mapped(f, chart),
        galaxy.is_inner(graph),
    ensures
        chart.nodes@.len() == graph_nodes(graph).len(),
        chart.links@.len() == graph_links(graph).len(),
        chart.links@ == graph_links(graph),
{
}

/// The edges of a mapped galaxy join nodes of the mapped galaxy, each an
/// older node to a younger one.
pub proof fn lemma_mapped_edges_are_causal<F: Fn(&DataPoint<NodeType>) -> E, E>(
    galaxy: Galaxy,
    f: F,
    chart: Chart<E>,
)
    requires
        galaxy.wf(),
        galaxy.is_mapped(f, chart),
    ensures
        forall|i: int|
            0 <= i < chart.links@.len() ==> (#[trigger] chart.links@[i]).0 < chart.links@[i].1
                && chart.links@[i].1 < chart.nodes@.len(),
{
}

/// Mapping by a function that hands every node back gives the nodes of the
/// graph of the galaxy.
pub proof fn lemma_mapping_by_the_identity<F>(
    galaxy: Galaxy,
    f: F,
    chart: Chart<DataPoint<NodeType>>,
    graph: Graph<DataPoint<NodeType>, ()>,
) where F: Fn(&DataPoint<NodeType>) -> DataPoint<NodeType>
    requires
        galaxy.is_mapped(f, chart),
        galaxy.is_inner(graph),
        forall|node: &DataPoint<NodeType>, image: DataPoint<NodeType>| #[trigger]
            f.ensures((node,), image) ==> image == *node,
    ensures
        chart.nodes@ == graph_nodes(graph),
        chart.links@ == graph_links(graph),
{
}

impl GalaxyPoints {
    /// The points still to come.
    pub closed spec fn rest(&self) -> Seq<DataPoint<NodeType>> {
        graph_nodes(self.graph).skip(self.points as int)
    }

    /// The position is within the graph.
    pub closed spec fn wf(&self) -> bool {
        self.points <= graph_nodes(self.graph).len() <= u32::MAX
    }

    /// The points of a graph, from the first node on.
    fn new(graph: Graph<DataPoint<NodeType>, ()>) -> (points: Self)
        requires
            graph_nodes(graph).len() <= u32::MAX,
        ensures
            points.wf(),
            points.rest() == graph_nodes(graph),
    {
        Self { graph, points: 0 }
    }

    /// The next point, if one is left.
    pub fn next(&mut self) -> (point: Option<DataPoint<NodeType>>)
        requires
            old(self).wf(),
        ensures
            final(self).wf(),
            match point {
                Some(p) => old(self).rest().len() > 0 && p == old(self).rest()[0] && final(self).rest()
                    == old(self).rest().skip(1),
                None => old(self).rest().len() == 0 && final(self).rest() == old(self).rest(),
            },
    {
        if self.points < graph_node_count(&self.graph) {
            let point = graph_node(&self.graph, self.points);
            self.points = self.points + 1;
            Some(point)
        } else {
            None
        }
    }
}

} // verus!
