//! The graph store.
//!
//! Nodes and edges live in a `petgraph` graph. Verus does not look inside
//! one, so this module names what a graph holds and states, for each method
//! the library calls, what the method does to that content. These
//! statements are believed, not proved; everything else in the crate is
//! proved from them.

use vstd::prelude::*;
use petgraph::graph::{EdgeIndex, Graph, NodeIndex};
use petgraph::visit::EdgeRef;
use petgraph::Directed;
use petgraph::Direction::Incoming;
use crate::frame::{EdgeType, Link, NodeType};
use crate::point::DataPoint;

verus! {

/// `petgraph::graph::Graph`, of which the verifier sees nothing but the name.
#[verifier::external_type_specification]
#[verifier::external_body]
#[verifier::reject_recursive_types(N)]
#[verifier::reject_recursive_types(E)]
#[verifier::reject_recursive_types(Ty)]
#[verifier::reject_recursive_types(Ix)]
pub struct ExGraph<N, E, Ty, Ix>(Graph<N, E, Ty, Ix>);

/// `petgraph::Directed`, the marker of a graph whose edges have a direction.
#[verifier::external_type_specification]
#[verifier::external_body]
pub struct ExDirected(Directed);

/// The node weights of a store under construction, by identifier.
pub uninterp spec fn store_nodes(g: Graph<DataPoint<NodeType>, EdgeType>) -> Seq<DataPoint<NodeType>>;

/// The edges of a store under construction, in the order in which they were
/// added.
pub uninterp spec fn store_links(g: Graph<DataPoint<NodeType>, EdgeType>) -> Seq<Link>;

/// The node weights of a finished graph, by identifier.
pub uninterp spec fn graph_nodes(g: Graph<DataPoint<NodeType>, ()>) -> Seq<DataPoint<NodeType>>;

/// The edges of a finished graph as pairs of source and target, in the order
/// in which they were added.
pub uninterp spec fn graph_links(g: Graph<DataPoint<NodeType>, ()>) -> Seq<(usize, usize)>;

/// The edges that leave `id`, the one added last coming first.
pub open spec fn outgoing(links: Seq<Link>, id: usize) -> Seq<Link>
    decreases links.len(),
{
    if links.len() == 0 {
        Seq::empty()
    } else if links.last().from == id {
        seq![links.last()] + outgoing(links.drop_last(), id)
    } else {
        outgoing(links.drop_last(), id)
    }
}

/// The edges that arrive at `id`, the one added last coming first.
pub open spec fn incoming(links: Seq<Link>, id: usize) -> Seq<Link>
    decreases links.len(),
{
    if links.len() == 0 {
        Seq::empty()
    } else if links.last().to == id {
        seq![links.last()] + incoming(links.drop_last(), id)
    } else {
        incoming(links.drop_last(), id)
    }
}

/// The `Frame` edges among `links`, in order, without their label.
pub open spec fn frame_pairs(links: Seq<Link>) -> Seq<(usize, usize)>
    decreases links.len(),
{
    if links.len() == 0 {
        Seq::empty()
    } else if links.last().kind == EdgeType::Frame {
        frame_pairs(links.drop_last()).push((links.last().from, links.last().to))
    } else {
        frame_pairs(links.drop_last())
    }
}

/// `Graph::new`: a store without nodes or edges.
#[verifier::external_body]
pub(crate) fn store_new() -> (g: Graph<DataPoint<NodeType>, EdgeType>)
    ensures
        store_nodes(g) == Seq::<DataPoint<NodeType>>::empty(),
        store_links(g) == Seq::<Link>::empty(),
{
    Graph::new()
}

/// `Graph::node_count`: the number of nodes.
#[verifier::external_body]
pub(crate) fn store_node_count(g: &Graph<DataPoint<NodeType>, EdgeType>) -> (n: usize)
    ensures
        n == store_nodes(*g).len(),
{
    g.node_count()
}

/// `Graph::edge_count`: the number of edges.
#[verifier::external_body]
pub(crate) fn store_edge_count(g: &Graph<DataPoint<NodeType>, EdgeType>) -> (n: usize)
    ensures
        n == store_links(*g).len(),
{
    g.edge_count()
}

/// `Graph::add_node`: the weight is appended and gets the next identifier,
/// and the edges stay. `add_node` panics once the count reaches the largest
/// value of the index type, so the store must be below it.
#[verifier::external_body]
pub(crate) fn store_add_node(
    g: &mut Graph<DataPoint<NodeType>, EdgeType>,
    weight: DataPoint<NodeType>,
) -> (id: usize)
    requires
        store_nodes(*old(g)).len() < u32::MAX,
    ensures
        id == store_nodes(*old(g)).len(),
        store_nodes(*final(g)) == store_nodes(*old(g)).push(weight),
        store_links(*final(g)) == store_links(*old(g)),
{
    g.add_node(weight).index()
}

/// `Graph::add_edge`: the edge is appended, parallel edges and loops
/// included, and the nodes stay. `add_edge` panics on an endpoint that does
/// not exist and once the edge count reaches the largest value of the index
/// type.
#[verifier::external_body]
pub(crate) fn store_add_edge(
    g: &mut Graph<DataPoint<NodeType>, EdgeType>,
    from: usize,
    to: usize,
    kind: EdgeType,
)
    requires
        from < store_nodes(*old(g)).len(),
        to < store_nodes(*old(g)).len(),
        store_nodes(*old(g)).len() <= u32::MAX,
        store_links(*old(g)).len() < u32::MAX,
    ensures
        store_nodes(*final(g)) == store_nodes(*old(g)),
        store_links(*final(g)) == store_links(*old(g)).push(Link { from, to, kind }),
{
    g.add_edge(NodeIndex::new(from), NodeIndex::new(to), kind);
}

/// Indexing a graph by a node identifier: the weight of that node. Indexing
/// panics on an identifier that does not exist.
#[verifier::external_body]
pub(crate) fn store_node(g: &Graph<DataPoint<NodeType>, EdgeType>, id: usize) -> (weight: DataPoint<NodeType>)
    requires
        id < store_nodes(*g).len(),
        store_nodes(*g).len() <= u32::MAX,
    ensures
        weight == store_nodes(*g)[id as int],
{
    g[NodeIndex::new(id)]
}

/// `Graph::edges` on a directed graph: the edges that leave `id`, walked from
/// the one added last to the one added first.
#[verifier::external_body]
pub(crate) fn store_edges(g: &Graph<DataPoint<NodeType>, EdgeType>, id: usize) -> (links: Vec<Link>)
    requires
        id < store_nodes(*g).len(),
        store_nodes(*g).len() <= u32::MAX,
    ensures
        links@ == outgoing(store_links(*g), id),
{
    g.edges(NodeIndex::new(id))
        .map(|e| Link { from: e.source().index(), to: e.target().index(), kind: *e.weight() })
        .collect()
}

/// `Graph::edges_directed` with `Incoming` on a directed graph: the edges
/// that arrive at `id`, walked from the one added last to the one added
/// first.
#[verifier::external_body]
pub(crate) fn store_edges_into(g: &Graph<DataPoint<NodeType>, EdgeType>, id: usize) -> (links: Vec<Link>)
    requires
        id < store_nodes(*g).len(),
        store_nodes(*g).len() <= u32::MAX,
    ensures
        links@ == incoming(store_links(*g), id),
{
    g.edges_directed(NodeIndex::new(id), Incoming)
        .map(|e| Link { from: e.source().index(), to: e.target().index(), kind: *e.weight() })
        .collect()
}

/// Whether an edge survives into the finished graph, and as what.
pub(crate) fn keep_frame(kind: &EdgeType) -> (kept: Option<()>)
    ensures
        kept.is_some() == (*kind == EdgeType::Frame),
{
    match kind {
        EdgeType::Frame => Some(()),
        EdgeType::Overlapping => None,
    }
}

/// `Graph::filter_map`, keeping every node and the edges that `keep_frame`
/// keeps: the result has the same nodes under the same identifiers, and the
/// kept edges in their old order.
#[verifier::external_body]
pub(crate) fn store_frame_only(g: &Graph<DataPoint<NodeType>, EdgeType>) -> (h: Graph<DataPoint<NodeType>, ()>)
    ensures
        graph_nodes(h) == store_nodes(*g),
        graph_links(h) == frame_pairs(store_links(*g)),
{
    g.filter_map(|_, n| Some(*n), |_, e| keep_frame(e))
}

/// `Graph::node_count`: the number of nodes.
#[verifier::external_body]
pub(crate) fn graph_node_count(g: &Graph<DataPoint<NodeType>, ()>) -> (n: usize)
    ensures
        n == graph_nodes(*g).len(),
{
    g.node_count()
}

/// `Graph::edge_count`: the number of edges.
#[verifier::external_body]
pub(crate) fn graph_edge_count(g: &Graph<DataPoint<NodeType>, ()>) -> (n: usize)
    ensures
        n == graph_links(*g).len(),
{
    g.edge_count()
}

/// Indexing a graph by a node identifier: the weight of that node. Indexing
/// panics on an identifier that does not exist.
#[verifier::external_body]
pub(crate) fn graph_node(g: &Graph<DataPoint<NodeType>, ()>, id: usize) -> (weight: DataPoint<NodeType>)
    requires
        id < graph_nodes(*g).len(),
        graph_nodes(*g).len() <= u32::MAX,
    ensures
        weight == graph_nodes(*g)[id as int],
{
    g[NodeIndex::new(id)]
}

/// `Graph::edge_endpoints`: source and target of the edge with identifier
/// `id`, when there is one.
#[verifier::external_body]
pub(crate) fn graph_endpoints(g: &Graph<DataPoint<NodeType>, ()>, id: usize) -> (ends: Option<(usize, usize)>)
    requires
        id < graph_links(*g).len(),
        graph_links(*g).len() <= u32::MAX,
    ensures
        ends == Some(graph_links(*g)[id as int]),
{
    g.edge_endpoints(EdgeIndex::new(id)).map(|(a, b)| (a.index(), b.index()))
}

} // verus!
