//! Facts about the model that the generation's code is proved from.

use vstd::prelude::*;
use crate::frame::{EdgeType, Link, NodeType};
use crate::model::{census, grows, lawful, near, overlaps, peak, shaped, sound};
use crate::point::DataPoint;
use crate::scalar::Scalar;
use crate::store::{frame_pairs, incoming, outgoing};

verus! {

/// A node added counts for its own kind and for no other.
pub proof fn lemma_census_push(nodes: Seq<DataPoint<NodeType>>, weight: DataPoint<NodeType>, kind: NodeType)
    ensures
        census(nodes.push(weight), kind) == census(nodes, kind) + if weight.data == kind {
            1nat
        } else {
            0nat
        },
{
    assert(nodes.push(weight).drop_last() =~= nodes);
}

/// A sequence of one node holds one node of its kind.
pub proof fn lemma_census_single(weight: DataPoint<NodeType>, kind: NodeType)
    ensures
        census(seq![weight], kind) == if weight.data == kind {
            1nat
        } else {
            0nat
        },
{
    lemma_census_push(Seq::empty(), weight, kind);
}

/// A kind without nodes is the kind of no node.
pub proof fn lemma_census_none(nodes: Seq<DataPoint<NodeType>>, kind: NodeType)
    requires
        census(nodes, kind) == 0,
    ensures
        forall|i: int| 0 <= i < nodes.len() ==> (#[trigger] nodes[i]).data != kind,
    decreases nodes.len(),
{
    if nodes.len() > 0 {
        let rest = nodes.drop_last();
        lemma_census_none(rest, kind);
        assert forall|i: int| 0 <= i < nodes.len() implies (#[trigger] nodes[i]).data != kind by {
            if i < rest.len() {
                assert(rest[i] == nodes[i]);
            }
        }
    }
}

/// The edges to the first `upto + 1` nodes are those to the first `upto`,
/// and one more if node `upto` lies within reach.
pub proof fn lemma_overlaps_step(id: usize, distances: Seq<Scalar>, reach: Scalar, upto: int)
    requires
        0 <= upto < distances.len(),
        distances.len() <= usize::MAX,
    ensures
        overlaps(id, distances.take(upto + 1), reach) == if distances[upto].below(reach) {
            overlaps(id, distances.take(upto), reach).push(
                Link { from: id, to: upto as usize, kind: EdgeType::Overlapping },
            )
        } else {
            overlaps(id, distances.take(upto), reach)
        },
{
    assert(distances.take(upto + 1).drop_last() =~= distances.take(upto));
}

/// The edges of a new node are no more than the older nodes, and each leads
/// from the new node to an older one.
pub proof fn lemma_overlaps_lawful(id: usize, distances: Seq<Scalar>, reach: Scalar)
    requires
        distances.len() <= id,
    ensures
        overlaps(id, distances, reach).len() <= distances.len(),
        forall|i: int|
            0 <= i < overlaps(id, distances, reach).len() ==> {
                let link = #[trigger] overlaps(id, distances, reach)[i];
                link.from == id && link.to < distances.len() && link.kind == EdgeType::Overlapping
            },
    decreases distances.len(),
{
    if distances.len() > 0 {
        lemma_overlaps_lawful(id, distances.drop_last(), reach);
    }
}

/// A node gets as many `Overlapping` edges as it has distances below the
/// reach.
pub proof fn lemma_overlaps_len(id: usize, distances: Seq<Scalar>, reach: Scalar)
    ensures
        overlaps(id, distances, reach).len() == near(distances, reach),
    decreases distances.len(),
{
    if distances.len() > 0 {
        lemma_overlaps_len(id, distances.drop_last(), reach);
    }
}

/// The first `upto + 1` distances have those of the first `upto` below the
/// reach, and one more if distance `upto` lies below it; no part of the
/// distances has more below the reach than all of them.
pub proof fn lemma_near_step(distances: Seq<Scalar>, reach: Scalar, upto: int)
    requires
        0 <= upto < distances.len(),
    ensures
        near(distances.take(upto + 1), reach) == near(distances.take(upto), reach) + if distances[upto].below(
            reach,
        ) {
            1nat
        } else {
            0nat
        },
        near(distances.take(upto + 1), reach) <= near(distances, reach),
    decreases distances.len() - upto,
{
    assert(distances.take(upto + 1).drop_last() =~= distances.take(upto));
    if upto + 1 < distances.len() {
        lemma_near_step(distances, reach, upto + 1);
    } else {
        assert(distances.take(upto + 1) =~= distances);
    }
}

/// The largest of the first `upto + 1` distances is the larger of the
/// largest of the first `upto` and of distance `upto`.
pub proof fn lemma_peak_step(distances: Seq<Scalar>, upto: int)
    requires
        0 <= upto < distances.len(),
    ensures
        peak(distances.take(upto + 1)) == peak(distances.take(upto)).larger(distances[upto]),
{
    assert(distances.take(upto + 1).drop_last() =~= distances.take(upto));
}

/// The edges that leave a node are the edges of the store whose source it
/// is.
pub proof fn lemma_outgoing(links: Seq<Link>, id: usize)
    ensures
        forall|link: Link| #[trigger]
            outgoing(links, id).contains(link) <==> links.contains(link) && link.from == id,
    decreases links.len(),
{
    if links.len() == 0 {
        assert forall|link: Link| #[trigger]
            outgoing(links, id).contains(link) <==> links.contains(link) && link.from == id by {}
    } else {
        let rest = links.drop_last();
        let last = links.last();
        lemma_outgoing(rest, id);
        assert forall|link: Link| #[trigger]
            outgoing(links, id).contains(link) <==> links.contains(link) && link.from == id by {
            let out = outgoing(links, id);
            let before = outgoing(rest, id);
            if out.contains(link) {
                let k = choose|k: int| 0 <= k < out.len() && out[k] == link;
                if last.from == id && k != 0 {
                    assert(before.contains(link));
                }
            }
            if links.contains(link) && link.from == id {
                let j = choose|j: int| 0 <= j < links.len() && links[j] == link;
                if j == links.len() - 1 {
                    assert(out[0] == link);
                } else {
                    assert(rest[j] == link);
                    assert(before.contains(link));
                    let k = choose|k: int| 0 <= k < before.len() && before[k] == link;
                    if last.from == id {
                        assert(out[k + 1] == link);
                    }
                }
            }
        }
    }
}

/// The edges that arrive at a node are the edges of the store whose target it
/// is.
pub proof fn lemma_incoming(links: Seq<Link>, id: usize)
    ensures
        forall|link: Link| #[trigger]
            incoming(links, id).contains(link) <==> links.contains(link) && link.to == id,
    decreases links.len(),
{
    if links.len() == 0 {
        assert forall|link: Link| #[trigger]
            incoming(links, id).contains(link) <==> links.contains(link) && link.to == id by {}
    } else {
        let rest = links.drop_last();
        let last = links.last();
        lemma_incoming(rest, id);
        assert forall|link: Link| #[trigger]
            incoming(links, id).contains(link) <==> links.contains(link) && link.to == id by {
            let out = incoming(links, id);
            let before = incoming(rest, id);
            if out.contains(link) {
                let k = choose|k: int| 0 <= k < out.len() && out[k] == link;
                if last.to == id && k != 0 {
                    assert(before.contains(link));
                }
            }
            if links.contains(link) && link.to == id {
                let j = choose|j: int| 0 <= j < links.len() && links[j] == link;
                if j == links.len() - 1 {
                    assert(out[0] == link);
                } else {
                    assert(rest[j] == link);
                    assert(before.contains(link));
                    let k = choose|k: int| 0 <= k < before.len() && before[k] == link;
                    if last.to == id {
                        assert(out[k + 1] == link);
                    }
                }
            }
        }
    }
}

/// The `Frame` edges are no more than the edges; each leads from an older
/// node to a younger one that exists, and to a kind that grows out of the
/// kind it comes from.
pub proof fn lemma_frame_pairs(links: Seq<Link>, nodes: Seq<DataPoint<NodeType>>)
    requires
        sound(links, nodes.len()),
        shaped(links, nodes),
    ensures
        frame_pairs(links).len() <= links.len(),
        forall|i: int|
            0 <= i < frame_pairs(links).len() ==> {
                let pair = #[trigger] frame_pairs(links)[i];
                pair.0 < pair.1 && pair.1 < nodes.len() && grows(
                    nodes[pair.0 as int].data,
                    nodes[pair.1 as int].data,
                )
            },
    decreases links.len(),
{
    if links.len() > 0 {
        let rest = links.drop_last();
        assert forall|i: int| 0 <= i < rest.len() implies lawful(#[trigger] rest[i], nodes.len()) by {}
        assert forall|i: int| 0 <= i < rest.len() && (#[trigger] rest[i]).kind == EdgeType::Frame implies grows(
            nodes[rest[i].from as int].data,
            nodes[rest[i].to as int].data,
        ) by {}
        lemma_frame_pairs(rest, nodes);
    }
}

/// `Overlapping` edges add nothing to the `Frame` edges.
pub proof fn lemma_frame_pairs_skip(links: Seq<Link>, extra: Seq<Link>)
    requires
        forall|i: int| 0 <= i < extra.len() ==> (#[trigger] extra[i]).kind == EdgeType::Overlapping,
    ensures
        frame_pairs(links + extra) == frame_pairs(links),
    decreases extra.len(),
{
    if extra.len() > 0 {
        assert((links + extra).drop_last() =~= links + extra.drop_last());
        lemma_frame_pairs_skip(links, extra.drop_last());
    }
}

/// A `Frame` edge added is one more `Frame` edge.
pub proof fn lemma_frame_pairs_push(links: Seq<Link>, from: usize, to: usize)
    ensures
        frame_pairs(links.push(Link { from, to, kind: EdgeType::Frame })) == frame_pairs(links).push(
            (from, to),
        ),
{
    assert(links.push(Link { from, to, kind: EdgeType::Frame }).drop_last() =~= links);
}

} // verus!
