//! The adjacency graph that a grid keeps of its hexes, held in a
//! `petgraph::stable_graph::StableGraph`. A node weighs the key of its hex, an
//! edge the neighbor slot in which its target lies as seen from its source.
//!
//! Nothing in this file is proved: each function states what the graph
//! library does, as its source shows it.

use vstd::prelude::*;
use vstd::multiset::Multiset;
use petgraph::stable_graph::{NodeIndex, StableGraph};
use petgraph::Directed;

verus! {

/// `petgraph::stable_graph::StableGraph`, as a type whose inside is not
/// looked into.
#[verifier::external_type_specification]
#[verifier::external_body]
#[verifier::reject_recursive_types(N)]
#[verifier::reject_recursive_types(E)]
#[verifier::reject_recursive_types(Ty)]
#[verifier::reject_recursive_types(Ix)]
pub struct ExStableGraph<N, E, Ty, Ix>(StableGraph<N, E, Ty, Ix>);

/// `petgraph::Directed`, the marker of a graph with directed edges.
#[verifier::external_type_specification]
#[verifier::external_body]
pub struct ExDirected(Directed);

/// The nodes of the graph: each node index that is in use, with the weight
/// of its node.
pub uninterp spec fn graph_nodes(g: StableGraph<u64, u8, Directed, u32>) -> Map<int, u64>;

/// The edges of the graph, each as source index, target index and weight.
/// The graph may hold an edge more than once.
pub uninterp spec fn graph_edges(g: StableGraph<u64, u8, Directed, u32>) -> Multiset<
    (int, int, u8),
>;

/// `StableGraph::new`: a graph without nodes and edges.
#[verifier::external_body]
pub(crate) fn graph_new() -> (r: StableGraph<u64, u8, Directed, u32>)
    ensures
        graph_nodes(r).dom() == Set::<int>::empty(),
        graph_edges(r).len() == 0,
{
    StableGraph::new()
}

/// `StableGraph::add_node`: adds a node with the given weight under an index
/// that was not in use, and returns the index. The edges stay. The call
/// panics only where every index below `u32::MAX` is in use, which the
/// precondition excludes.
#[verifier::external_body]
pub(crate) fn graph_add_node(
    g: &mut StableGraph<u64, u8, Directed, u32>,
    weight: u64,
) -> (h: u32)
    requires
        graph_nodes(*old(g)).dom().finite(),
        graph_nodes(*old(g)).dom().len() < 0xffff_ffff,
    ensures
        !graph_nodes(*old(g)).dom().contains(h as int),
        graph_nodes(*final(g)) == graph_nodes(*old(g)).insert(h as int, weight),
        graph_edges(*final(g)) == graph_edges(*old(g)),
{
    g.add_node(weight).index() as u32
}

/// `StableGraph::add_edge`: adds an edge from node `a` to node `b` with the
/// given weight, beside any edge that is already there. The nodes stay. The
/// call panics where one of the nodes is missing or `u32::MAX` edges exist,
/// which the precondition excludes.
#[verifier::external_body]
pub(crate) fn graph_add_edge(
    g: &mut StableGraph<u64, u8, Directed, u32>,
    a: u32,
    b: u32,
    weight: u8,
)
    requires
        graph_nodes(*old(g)).dom().contains(a as int),
        graph_nodes(*old(g)).dom().contains(b as int),
        graph_edges(*old(g)).len() < 0xffff_ffff,
    ensures
        graph_nodes(*final(g)) == graph_nodes(*old(g)),
        graph_edges(*final(g)) == graph_edges(*old(g)).insert((a as int, b as int, weight)),
{
    g.add_edge(NodeIndex::new(a as usize), NodeIndex::new(b as usize), weight);
}

/// `StableGraph::remove_node`: removes node `a`, if it exists, with every
/// edge that starts or ends in it, and returns its weight. No other node or
/// edge changes.
#[verifier::external_body]
pub(crate) fn graph_remove_node(
    g: &mut StableGraph<u64, u8, Directed, u32>,
    a: u32,
) -> (r: Option<u64>)
    ensures
        r == (if graph_nodes(*old(g)).dom().contains(a as int) {
            Some(graph_nodes(*old(g))[a as int])
        } else {
            None
        }),
        graph_nodes(*final(g)) == graph_nodes(*old(g)).remove(a as int),
        graph_edges(*final(g)).len() <= graph_edges(*old(g)).len(),
        forall|e: (int, int, u8)|
            e.0 != a && e.1 != a ==> #[trigger] graph_edges(*final(g)).count(e) == graph_edges(
                *old(g),
            ).count(e),
        r.is_some() ==> forall|e: (int, int, u8)|
            e.0 == a || e.1 == a ==> #[trigger] graph_edges(*final(g)).count(e) == 0,
{
    g.remove_node(NodeIndex::new(a as usize))
}

/// `StableGraph::edges_connecting`: the weight of the first edge that the
/// graph finds from node `a` to node `b`, or `None` where there is no such
/// edge. Which of several such edges comes first is left open.
#[verifier::external_body]
pub(crate) fn graph_edge_between(
    g: &StableGraph<u64, u8, Directed, u32>,
    a: u32,
    b: u32,
) -> (r: Option<u8>)
    ensures
        match r {
            Some(w) => graph_edges(*g).count((a as int, b as int, w)) > 0,
            None => forall|w: u8| #[trigger] graph_edges(*g).count((a as int, b as int, w)) == 0,
        },
{
    g.edges_connecting(NodeIndex::new(a as usize), NodeIndex::new(b as usize))
        .next()
        .map(|e| *e.weight())
}

/// `StableGraph::edge_count`: the number of edges.
#[verifier::external_body]
pub(crate) fn graph_edge_count(g: &StableGraph<u64, u8, Directed, u32>) -> (n: usize)
    ensures
        n == graph_edges(*g).len(),
{
    g.edge_count()
}

} // verus!
