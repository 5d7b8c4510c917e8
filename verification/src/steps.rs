//! Every step of a generation keeps the state well formed.

use vstd::prelude::*;
use crate::builder::GalaxyBuilder;
use crate::frame::{EdgeType, NodeType};
use crate::lemmas::{
    lemma_census_none, lemma_census_push, lemma_census_single, lemma_frame_pairs_push, lemma_frame_pairs_skip,
    lemma_overlaps_lawful, lemma_overlaps_len,
};
use crate::model::{census, grows, lawful, overlaps, shaped, sound, Model};
use crate::store::frame_pairs;
use crate::point::{DataPoint, Point};
use crate::protocol::{Phase, Registers};
use crate::scalar::Scalar;

verus! {

/// A generation starts well formed.
pub proof fn lemma_start_wf(config: GalaxyBuilder, center: Point)
    ensures
        Model::start(config, center).wf(),
{
    let root = DataPoint { point: center, data: NodeType::Root };
    lemma_census_single(root, NodeType::Root);
    lemma_census_single(root, NodeType::Arm);
    lemma_census_single(root, NodeType::Ext);
    lemma_census_single(root, NodeType::Loner);
    lemma_census_single(root, NodeType::System);
}

/// What placing a node does to the invariants of the graph: the counts
/// move by one for the node's kind, and the edges stay lawful.
pub proof fn lemma_put(m: Model, point: Point, kind: NodeType, distances: Seq<Scalar>)
    requires
        1 <= m.nodes.len() < u32::MAX,
        sound(m.links, m.nodes.len()),
        shaped(m.links, m.nodes),
        distances.len() == m.nodes.len(),
    ensures
        m.put(point, kind, distances).nodes.len() == m.nodes.len() + 1,
        m.put(point, kind, distances).nodes[0] == m.nodes[0],
        m.put(point, kind, distances).nodes[m.nodes.len() as int] == (DataPoint { point, data: kind }),
        m.put(point, kind, distances).links.len() == m.links.len() + m.nearby(distances),
        sound(m.put(point, kind, distances).links, m.nodes.len() + 1),
        shaped(m.put(point, kind, distances).links, m.put(point, kind, distances).nodes),
        frame_pairs(m.put(point, kind, distances).links) == frame_pairs(m.links),
        forall|i: int| 0 <= i < m.nodes.len() ==> m.put(point, kind, distances).nodes[i] == m.nodes[i],
        forall|other: NodeType|
            census(m.put(point, kind, distances).nodes, other) == census(m.nodes, other) + if kind
                == other {
                1nat
            } else {
                0nat
            },
{
    let weight = DataPoint { point, data: kind };
    lemma_overlaps_lawful(m.count(), distances, m.state.reach);
    lemma_overlaps_len(m.count(), distances, m.state.reach);
    let extra = overlaps(m.count(), distances, m.state.reach);
    lemma_frame_pairs_skip(m.links, extra);
    let next = m.put(point, kind, distances);
    assert forall|i: int|
        0 <= i < next.links.len() && (#[trigger] next.links[i]).kind == EdgeType::Frame implies grows(
            next.nodes[next.links[i].from as int].data,
            next.nodes[next.links[i].to as int].data,
        ) by {}
    assert forall|other: NodeType|
        census(m.put(point, kind, distances).nodes, other) == census(m.nodes, other) + if kind == other {
            1nat
        } else {
            0nat
        } by {
        lemma_census_push(m.nodes, weight, other);
    }
}

/// A `Frame` edge from an older node to a younger one keeps the edges
/// lawful.
pub proof fn lemma_join(m: Model, from: usize, to: usize)
    requires
        sound(m.links, m.nodes.len()),
        shaped(m.links, m.nodes),
        from < to < m.nodes.len(),
        grows(m.nodes[from as int].data, m.nodes[to as int].data),
    ensures
        sound(m.join(from, to).links, m.nodes.len()),
        shaped(m.join(from, to).links, m.nodes),
        m.join(from, to).links.len() == m.links.len() + 1,
        frame_pairs(m.join(from, to).links) == frame_pairs(m.links).push((from, to)),
{
    lemma_frame_pairs_push(m.links, from, to);
    let next = m.join(from, to);
    assert forall|i: int|
        0 <= i < next.links.len() && (#[trigger] next.links[i]).kind == EdgeType::Frame implies grows(
            m.nodes[next.links[i].from as int].data,
            m.nodes[next.links[i].to as int].data,
        ) by {}
}

/// The reach leaves the state well formed.
pub proof fn lemma_on_reach_wf(m: Model, reach: Scalar)
    requires
        m.wf(),
        m.state.phase == Phase::Reach,
    ensures
        m.on_reach(reach).wf(),
{
    let bones = m.config.nb_arm_bones as int;
    assert(0 * bones == 0) by (nonlinear_arith);
}

/// A link of an arm leaves the state well formed.
pub proof fn lemma_on_bone_wf(
    m: Model,
    position: Point,
    direction: Point,
    angle: Scalar,
    divisor: Scalar,
    distances: Seq<Scalar>,
)
    requires
        m.wf(),
        m.state.phase == Phase::Bone,
        distances.len() == m.nodes.len(),
        m.room(1, m.nearby(distances) + 1),
    ensures
        m.on_bone(position, direction, angle, divisor, distances).wf(),
{
    let placed = m.put(position, NodeType::Arm, distances);
    lemma_put(m, position, NodeType::Arm, distances);
    lemma_join(placed, m.state.tip, m.count());
}

/// The span of a branch leaves the state well formed.
pub proof fn lemma_on_span_wf(m: Model, normale: Point, whole: u32)
    requires
        m.wf(),
        m.state.phase == Phase::Span,
    ensures
        m.on_span(normale, whole).wf(),
{
}

/// A pair of branch points leaves the state well formed.
pub proof fn lemma_on_offset_wf(
    m: Model,
    plus: Point,
    minus: Point,
    plus_distances: Seq<Scalar>,
    minus_distances: Seq<Scalar>,
)
    requires
        m.wf(),
        m.state.phase == Phase::Offset,
        plus_distances.len() == m.nodes.len(),
        minus_distances.len() == m.nodes.len() + 1,
        m.room(2, m.nearby(plus_distances) + m.nearby(minus_distances) + 2),
    ensures
        m.on_offset(plus, minus, plus_distances, minus_distances).wf(),
{
    let first = m.put(plus, NodeType::Ext, plus_distances);
    lemma_put(m, plus, NodeType::Ext, plus_distances);
    let second = first.put(minus, NodeType::Ext, minus_distances);
    lemma_put(first, minus, NodeType::Ext, minus_distances);
    let third = second.join(m.state.plus_end, m.count());
    lemma_join(second, m.state.plus_end, m.count());
    lemma_join(third, m.state.minus_end, (m.count() + 1) as usize);
}

/// The turn to the next arm leaves the state well formed.
pub proof fn lemma_on_turn_wf(m: Model, angle: Scalar)
    requires
        m.wf(),
        m.state.phase == Phase::Turn,
    ensures
        m.on_turn(angle).wf(),
{
    let a = m.state.arm as int;
    let b = m.config.nb_arm_bones as int;
    assert((a + 1) * b == a * b + b) by (nonlinear_arith);
}

/// The clouds begin well formed once the skeleton and the outliers are
/// complete.
pub proof fn lemma_enter_cloud_wf(m: Model)
    requires
        m.graph_wf(),
        census(m.nodes, NodeType::Root) == 1,
        census(m.nodes, NodeType::Arm) == m.config.nb_arms * m.config.nb_arm_bones,
        census(m.nodes, NodeType::Ext) % 2 == 0,
        census(m.nodes, NodeType::Loner) == m.config.nb_loners,
        census(m.nodes, NodeType::System) == 0,
        frame_pairs(m.links).len() == census(m.nodes, NodeType::Arm) + census(m.nodes, NodeType::Ext),
    ensures
        m.enter_cloud().wf(),
{
    lemma_census_none(m.nodes, NodeType::System);
    let population = m.config.cloud_population as int;
    assert(0 * population == 0) by (nonlinear_arith);
}

/// The radius leaves the state well formed.
pub proof fn lemma_on_radius_wf(m: Model, distances: Seq<Scalar>)
    requires
        m.wf(),
        m.state.phase == Phase::Radius,
    ensures
        m.on_radius(distances).wf(),
{
    let set = Model { state: Registers { radius: crate::model::peak(distances), loner: 0, ..m.state }, ..m };
    if m.config.nb_loners == 0 {
        lemma_enter_cloud_wf(set);
    }
}

/// An outlier leaves the state well formed.
pub proof fn lemma_on_loner_wf(m: Model, point: Point, distances: Seq<Scalar>)
    requires
        m.wf(),
        m.state.phase == Phase::Loner,
        distances.len() == m.nodes.len(),
        m.room(1, m.nearby(distances)),
    ensures
        m.on_loner(point, distances).wf(),
{
    lemma_put(m, point, NodeType::Loner, distances);
    let loner = (m.state.loner + 1) as u64;
    let grown = m.put(point, NodeType::Loner, distances);
    let moved = Model { state: Registers { loner, ..m.state }, ..grown };
    if loner >= m.config.nb_loners {
        lemma_enter_cloud_wf(moved);
    }
}

/// A cloud candidate, kept or dropped, leaves the state well formed.
pub proof fn lemma_on_candidate_wf(m: Model, point: Point, distances: Seq<Scalar>)
    requires
        m.wf(),
        m.state.phase == Phase::Candidate,
        distances.len() == m.nodes.len(),
        m.keeps(distances) ==> m.room(1, m.nearby(distances) + 1),
    ensures
        m.on_candidate(point, distances).wf(),
{
    let host = m.state.host as int;
    let population = m.config.cloud_population as int;
    assert((host + 1) * population == host * population + population) by (nonlinear_arith);
    if m.keeps(distances) {
        let placed = m.put(point, NodeType::System, distances);
        lemma_put(m, point, NodeType::System, distances);
        lemma_join(placed, m.state.host, m.count());
    }
}

} // verus!
