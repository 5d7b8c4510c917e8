//! What holds of every generation, whatever the replies.

use vstd::prelude::*;
use crate::builder::GalaxyBuilder;
use crate::frame::{EdgeType, Link, NodeType};
use crate::model::{census, grows, hemmed, lawful, other_end, overlaps, peak, touches, Model};
use crate::point::{DataPoint, Point};
use crate::protocol::{Phase, Reply, Request};
use crate::scalar::Scalar;
use crate::steps::{
    lemma_on_bone_wf, lemma_on_candidate_wf, lemma_on_loner_wf, lemma_on_offset_wf, lemma_on_radius_wf,
    lemma_on_reach_wf, lemma_on_span_wf, lemma_on_turn_wf, lemma_start_wf,
};

verus! {

/// The state that a sequence of replies leads to; a reply that is refused
/// changes nothing.
pub open spec fn after(m: Model, replies: Seq<Reply>) -> Model
    decreases replies.len(),
{
    if replies.len() == 0 {
        m
    } else {
        let before = after(m, replies.drop_last());
        if before.fault(replies.last()).is_none() {
            before.advance(replies.last())
        } else {
            before
        }
    }
}

/// One more reply: the state after it is the state before it, moved on by
/// the reply unless the reply is refused.
pub proof fn lemma_after_push(m: Model, replies: Seq<Reply>, reply: Reply)
    ensures
        after(m, replies.push(reply)) == if after(m, replies).fault(reply).is_none() {
            after(m, replies).advance(reply)
        } else {
            after(m, replies)
        },
{
    assert(replies.push(reply).drop_last() =~= replies);
}

/// A reply that is not refused leaves a well-formed state well formed.
pub proof fn lemma_advance_wf(m: Model, reply: Reply)
    requires
        m.wf(),
        m.fault(reply).is_none(),
    ensures
        m.advance(reply).wf(),
{
    match reply {
        Reply::Reach(reach) => lemma_on_reach_wf(m, reach),
        Reply::Bone { position, direction, angle, divisor, distances } => lemma_on_bone_wf(
            m,
            position,
            direction,
            angle,
            divisor,
            distances@,
        ),
        Reply::Span { normale, whole } => lemma_on_span_wf(m, normale, whole),
        Reply::Offset { plus, minus, plus_distances, minus_distances } => lemma_on_offset_wf(
            m,
            plus,
            minus,
            plus_distances@,
            minus_distances@,
        ),
        Reply::Turn(angle) => lemma_on_turn_wf(m, angle),
        Reply::Radius(distances) => lemma_on_radius_wf(m, distances@),
        Reply::Placed { point, distances } => {
            if m.state.phase == Phase::Loner {
                lemma_on_loner_wf(m, point, distances@);
            } else {
                lemma_on_candidate_wf(m, point, distances@);
            }
        },
    }
}

/// Every reply that is not refused brings the generation closer to its end:
/// no sequence of replies keeps a generation going for ever.
pub proof fn lemma_progress(m: Model, reply: Reply)
    requires
        m.wf(),
        m.fault(reply).is_none(),
    ensures
        decreases_to!(
            m.stages_left(), m.arms_left(), m.bones_left(), m.parts_left(), m.pairs_left(),
            m.loners_left(), m.hosts_left(), m.draws_left()
            =>
            m.advance(reply).stages_left(), m.advance(reply).arms_left(), m.advance(reply).bones_left(),
            m.advance(reply).parts_left(), m.advance(reply).pairs_left(), m.advance(reply).loners_left(),
            m.advance(reply).hosts_left(), m.advance(reply).draws_left()
        ),
{
}

/// A reply never touches the configuration or the centre, and it only
/// adds to the graph: the nodes and edges that were there stay, in their
/// places.
pub proof fn lemma_advance_appends(m: Model, reply: Reply)
    requires
        m.fault(reply).is_none(),
    ensures
        m.advance(reply).config == m.config,
        m.advance(reply).state.center == m.state.center,
        m.nodes.is_prefix_of(m.advance(reply).nodes),
        m.links.is_prefix_of(m.advance(reply).links),
{
    let next = m.advance(reply);
    assert(m.nodes.len() <= next.nodes.len() && forall|i: int|
        0 <= i < m.nodes.len() ==> m.nodes[i] == next.nodes[i]);
    assert(m.links.len() <= next.links.len() && forall|i: int|
        0 <= i < m.links.len() ==> m.links[i] == next.links[i]);
}

/// Every state of every generation is well formed, and works from the
/// configuration it was begun with.
pub proof fn lemma_every_state_is_well_formed(config: GalaxyBuilder, center: Point, replies: Seq<Reply>)
    ensures
        after(Model::start(config, center), replies).wf(),
        after(Model::start(config, center), replies).config == config,
        after(Model::start(config, center), replies).state.center == center,
    decreases replies.len(),
{
    let start = Model::start(config, center);
    if replies.len() == 0 {
        lemma_start_wf(config, center);
    } else {
        lemma_every_state_is_well_formed(config, center, replies.drop_last());
        let before = after(start, replies.drop_last());
        if before.fault(replies.last()).is_none() {
            lemma_advance_wf(before, replies.last());
        }
    }
}

/// A complete galaxy has exactly one root, which is its first node and lies
/// at the centre; as many arm nodes as arms times links; and as many
/// outliers as were asked for.
pub proof fn lemma_census_of_a_galaxy(config: GalaxyBuilder, center: Point, replies: Seq<Reply>)
    requires
        after(Model::start(config, center), replies).state.phase == Phase::Done,
    ensures
        ({
            let nodes = after(Model::start(config, center), replies).nodes;
            &&& nodes[0] == (DataPoint { point: center, data: NodeType::Root })
            &&& census(nodes, NodeType::Root) == 1
            &&& census(nodes, NodeType::Arm) == config.nb_arms * config.nb_arm_bones
            &&& census(nodes, NodeType::Loner) == config.nb_loners
        }),
{
    lemma_every_state_is_well_formed(config, center, replies);
}

/// The clouds of a complete galaxy: the nodes placed before the first
/// candidate are the hosts, every later node is a cloud point, there are at
/// most `cloud_population` cloud points for each host, and exactly as many
/// when no least distance is set.
pub proof fn lemma_clouds_of_a_galaxy(config: GalaxyBuilder, center: Point, replies: Seq<Reply>)
    requires
        after(Model::start(config, center), replies).state.phase == Phase::Done,
    ensures
        ({
            let end = after(Model::start(config, center), replies);
            let hosts = end.state.hosts;
            &&& 1 <= hosts <= end.nodes.len()
            &&& forall|i: int|
                0 <= i < end.nodes.len() ==> ((#[trigger] end.nodes[i]).data == NodeType::System <==> hosts
                    <= i)
            &&& census(end.nodes, NodeType::System) <= hosts * config.cloud_population
            &&& config.min_distance.is_none() ==> census(end.nodes, NodeType::System) == hosts
                * config.cloud_population
        }),
{
    lemma_every_state_is_well_formed(config, center, replies);
}

/// The skeleton has the shape of its kinds, and clouds do not grow around
/// clouds: in a well-formed state, a `Frame` edge leads to a link of an arm
/// from the root or from a link, to a branch point from a link or from a
/// branch point, and to a cloud point from a node that is none; no `Frame`
/// edge leads to the root or to an outlier.
pub proof fn lemma_frame_edges_follow_the_kinds(m: Model, link: Link)
    requires
        m.wf(),
        m.links.contains(link),
        link.kind == EdgeType::Frame,
    ensures
        link.from < link.to < m.nodes.len(),
        grows(m.nodes[link.from as int].data, m.nodes[link.to as int].data),
{
    let i = choose|i: int| 0 <= i < m.links.len() && m.links[i] == link;
    assert(lawful(m.links[i], m.nodes.len()));
}

/// Construction is causal: in a well-formed state every edge joins two
/// nodes that exist, a `Frame` edge leads from an older node to a younger
/// one, and an `Overlapping` edge from a younger node to an older one.
pub proof fn lemma_edges_are_causal(m: Model, link: Link)
    requires
        m.wf(),
        m.links.contains(link),
    ensures
        link.from < m.nodes.len(),
        link.to < m.nodes.len(),
        link.kind == EdgeType::Frame ==> link.from < link.to,
        link.kind == EdgeType::Overlapping ==> link.to < link.from,
{
    let i = choose|i: int| 0 <= i < m.links.len() && m.links[i] == link;
    assert(lawful(m.links[i], m.nodes.len()));
}

/// A branch gets one point more on each side than whole strides fit into
/// its span, so at least one; a branch without width gets exactly one.
pub proof fn lemma_span_opens_a_branch(m: Model, normale: Point, whole: u32)
    requires
        m.state.phase == Phase::Span,
    ensures
        m.on_span(normale, whole).nodes == m.nodes,
        m.on_span(normale, whole).links == m.links,
        m.on_span(normale, whole).pairs_left() == whole + 1,
        m.on_span(normale, whole).request() == (Request::Offset {
            origin: m.state.position,
            normale,
            parts: (whole + 1) as u64,
            step: 1,
        }),
{
}

/// Every pair of branch points is two `Ext` nodes, the first along the span
/// and the second against it, and takes one off the pairs that are left; the
/// branch is complete when none is left.
pub proof fn lemma_offset_grows_a_branch(
    m: Model,
    plus: Point,
    minus: Point,
    plus_distances: Seq<Scalar>,
    minus_distances: Seq<Scalar>,
)
    requires
        m.wf(),
        m.state.phase == Phase::Offset,
    ensures
        ({
            let next = m.on_offset(plus, minus, plus_distances, minus_distances);
            &&& next.nodes == m.nodes.push(DataPoint { point: plus, data: NodeType::Ext }).push(
                DataPoint { point: minus, data: NodeType::Ext },
            )
            &&& if m.pairs_left() > 1 {
                next.state.phase == Phase::Offset && next.pairs_left() == m.pairs_left() - 1
            } else {
                next.state.phase == Phase::Bone || next.state.phase == Phase::Turn
            }
        }),
{
}

/// What a candidate leads to. One that is kept becomes the newest node, a
/// `System` node at the candidate's position, and the newest edge is the
/// `Frame` edge from its host. One that is dropped leaves the graph as it
/// was.
pub proof fn lemma_candidate_outcome(m: Model, point: Point, distances: Seq<Scalar>)
    requires
        m.state.phase == Phase::Candidate,
    ensures
        ({
            let next = m.on_candidate(point, distances);
            if m.keeps(distances) {
                &&& next.nodes == m.nodes.push(DataPoint { point, data: NodeType::System })
                &&& next.links == (m.links + overlaps(m.count(), distances, m.state.reach)).push(
                    Link { from: m.state.host, to: m.count(), kind: EdgeType::Frame },
                )
            } else {
                &&& next.nodes == m.nodes
                &&& next.links == m.links
            }
        }),
{
}

/// A candidate that is kept while a least distance is set lies no closer
/// than that distance to any two-hop neighbour of its host: to any node that
/// a `Frame` edge joins to a node that an `Overlapping` edge joins to the
/// host.
pub proof fn lemma_kept_candidates_are_clear(
    m: Model,
    distances: Seq<Scalar>,
    least: Scalar,
    near: Link,
    far: Link,
)
    requires
        m.wf(),
        m.state.phase == Phase::Candidate,
        distances.len() == m.nodes.len(),
        m.config.min_distance == Some(least),
        m.keeps(distances),
        m.links.contains(near),
        near.kind == EdgeType::Overlapping,
        touches(near, m.state.host),
        m.links.contains(far),
        far.kind == EdgeType::Frame,
        touches(far, other_end(near, m.state.host)),
    ensures
        other_end(far, other_end(near, m.state.host)) < distances.len(),
        !distances[other_end(far, other_end(near, m.state.host)) as int].below(least),
{
}

/// A candidate is dropped only for a two-hop neighbour of its host that it
/// is too close to.
pub proof fn lemma_dropped_candidates_are_crowded(m: Model, distances: Seq<Scalar>)
    requires
        !m.keeps(distances),
    ensures
        m.config.min_distance.is_some(),
        exists|near: Link, far: Link|
            {
                let mid = other_end(near, m.state.host);
                &&& #[trigger] m.links.contains(near)
                &&& near.kind == EdgeType::Overlapping
                &&& touches(near, m.state.host)
                &&& #[trigger] m.links.contains(far)
                &&& far.kind == EdgeType::Frame
                &&& touches(far, mid)
                &&& other_end(far, mid) < distances.len()
                &&& distances[other_end(far, mid) as int].below(m.config.min_distance.unwrap())
            },
{
    let least = m.config.min_distance.unwrap();
    let near = choose|near: Link|
        #![trigger m.links.contains(near)]
        {
            &&& m.links.contains(near)
            &&& near.kind == EdgeType::Overlapping
            &&& touches(near, m.state.host)
            &&& hemmed(m.links, other_end(near, m.state.host), distances, least)
        };
    let mid = other_end(near, m.state.host);
    let far = choose|far: Link|
        #![trigger m.links.contains(far)]
        {
            &&& m.links.contains(far)
            &&& far.kind == EdgeType::Frame
            &&& touches(far, mid)
            &&& other_end(far, mid) < distances.len()
            &&& distances[other_end(far, mid) as int].below(least)
        };
    assert(m.links.contains(near) && m.links.contains(far));
}

/// The largest of a list of distances is a number, and none of the
/// distances exceeds it.
pub proof fn lemma_peak_covers(distances: Seq<Scalar>, i: int)
    requires
        0 <= i < distances.len(),
    ensures
        !peak(distances).nan(),
        0 <= peak(distances).rank(),
        !peak(distances).below(distances[i]),
    decreases distances.len(),
{
    let rest = distances.drop_last();
    lemma_peak_is_a_number(rest);
    if i < rest.len() {
        lemma_peak_covers(rest, i);
    }
}

/// The largest of a list of distances is a number that is not negative.
pub proof fn lemma_peak_is_a_number(distances: Seq<Scalar>)
    ensures
        !peak(distances).nan(),
        0 <= peak(distances).rank(),
    decreases distances.len(),
{
    if distances.len() > 0 {
        lemma_peak_is_a_number(distances.drop_last());
    }
}

/// The radius of the galaxy is at least the distance from the root to every
/// node of the skeleton: when the distances come in, none of them exceeds
/// the radius that is kept, and that radius is what the outliers are then
/// asked to stay within.
pub proof fn lemma_radius_covers_the_skeleton(m: Model, distances: Seq<Scalar>, i: int)
    requires
        m.state.phase == Phase::Radius,
        0 <= i < distances.len(),
    ensures
        m.on_radius(distances).state.radius == peak(distances),
        !m.on_radius(distances).state.radius.nan(),
        !m.on_radius(distances).state.radius.below(distances[i]),
        m.on_radius(distances).state.phase == Phase::Loner ==> m.on_radius(distances).request() == (
        Request::Loner { center: m.state.center, radius: peak(distances) }),
{
    lemma_peak_covers(distances, i);
}

/// Once it is set, the radius stays, and so does the reach.
pub proof fn lemma_radius_and_reach_stay(m: Model, reply: Reply)
    requires
        m.fault(reply).is_none(),
    ensures
        m.state.phase != Phase::Radius ==> m.advance(reply).state.radius == m.state.radius,
        m.state.phase != Phase::Reach ==> m.advance(reply).state.reach == m.state.reach,
{
}

/// A node is joined by an `Overlapping` edge to exactly the older nodes whose
/// distance from it lies below the reach.
pub proof fn lemma_overlaps_are_the_near_nodes(id: usize, distances: Seq<Scalar>, reach: Scalar, to: usize)
    requires
        distances.len() <= id,
    ensures
        overlaps(id, distances, reach).contains(Link { from: id, to, kind: EdgeType::Overlapping }) <==> to
            < distances.len() && distances[to as int].below(reach),
    decreases distances.len(),
{
    let link = Link { from: id, to, kind: EdgeType::Overlapping };
    let all = overlaps(id, distances, reach);
    if distances.len() > 0 {
        let rest = distances.drop_last();
        let before = overlaps(id, rest, reach);
        lemma_overlaps_are_the_near_nodes(id, rest, reach, to);
        let last = (distances.len() - 1) as usize;
        if distances.last().below(reach) && to < distances.len() && distances[to as int].below(reach) {
            if to == last {
                assert(all[before.len() as int] == link);
            } else {
                let k = choose|k: int| 0 <= k < before.len() && before[k] == link;
                assert(all[k] == link);
            }
        }
    }
}

} // verus!
