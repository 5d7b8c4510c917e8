//! The generation as mathematics: its state, what it asks for, and how a
//! reply moves it on.

use vstd::prelude::*;
use crate::builder::GalaxyBuilder;
use crate::frame::{EdgeType, Link, NodeType};
use crate::galaxy::Galaxy;
use crate::point::{DataPoint, Point};
use crate::protocol::{Fault, Phase, Registers, Reply, Request};
use crate::scalar::Scalar;
use crate::store::frame_pairs;

verus! {

/// How many nodes of the given kind there are.
pub open spec fn census(nodes: Seq<DataPoint<NodeType>>, kind: NodeType) -> nat
    decreases nodes.len(),
{
    if nodes.len() == 0 {
        0
    } else {
        census(nodes.drop_last(), kind) + if nodes.last().data == kind {
            1nat
        } else {
            0nat
        }
    }
}

/// The `Overlapping` edges that a node placed as `id` gets: one to every
/// older node whose distance from it lies below `reach`, oldest first.
pub open spec fn overlaps(id: usize, distances: Seq<Scalar>, reach: Scalar) -> Seq<Link>
    decreases distances.len(),
{
    if distances.len() == 0 {
        Seq::empty()
    } else if distances.last().below(reach) {
        overlaps(id, distances.drop_last(), reach).push(
            Link { from: id, to: (distances.len() - 1) as usize, kind: EdgeType::Overlapping },
        )
    } else {
        overlaps(id, distances.drop_last(), reach)
    }
}

/// How many of the distances lie below `reach`: how many `Overlapping` edges
/// a node with these distances gets.
pub open spec fn near(distances: Seq<Scalar>, reach: Scalar) -> nat
    decreases distances.len(),
{
    if distances.len() == 0 {
        0
    } else {
        near(distances.drop_last(), reach) + if distances.last().below(reach) {
            1nat
        } else {
            0nat
        }
    }
}

/// The largest of the distances, starting from zero and passing over what is
/// not a number.
pub open spec fn peak(distances: Seq<Scalar>) -> Scalar
    decreases distances.len(),
{
    if distances.len() == 0 {
        Scalar::zero()
    } else {
        peak(distances.drop_last()).larger(distances.last())
    }
}

/// An edge that an append-only construction can have made: its ends exist,
/// a `Frame` edge leads from an older node to a younger one, and an
/// `Overlapping` edge from a younger node to an older one.
pub open spec fn lawful(link: Link, count: nat) -> bool {
    &&& link.from < count
    &&& link.to < count
    &&& match link.kind {
        EdgeType::Frame => link.from < link.to,
        EdgeType::Overlapping => link.to < link.from,
    }
}

/// Whether a node of kind `to` can have grown out of a node of kind `from`:
/// an arm's link out of the root or out of the link before it, a branch point
/// out of a link or out of the branch point before it, and a cloud point out
/// of anything but a cloud point. Roots and outliers grow out of nothing.
pub open spec fn grows(from: NodeType, to: NodeType) -> bool {
    match to {
        NodeType::Arm => from == NodeType::Root || from == NodeType::Arm,
        NodeType::Ext => from == NodeType::Arm || from == NodeType::Ext,
        NodeType::System => from != NodeType::System,
        NodeType::Root | NodeType::Loner => false,
    }
}

/// Every `Frame` edge joins two kinds of which the second [`grows`] out of
/// the first.
pub open spec fn shaped(links: Seq<Link>, nodes: Seq<DataPoint<NodeType>>) -> bool {
    forall|i: int|
        0 <= i < links.len() && (#[trigger] links[i]).kind == EdgeType::Frame ==> grows(
            nodes[links[i].from as int].data,
            nodes[links[i].to as int].data,
        )
}

/// Every edge is [`lawful`].
pub open spec fn sound(links: Seq<Link>, count: nat) -> bool {
    forall|i: int| 0 <= i < links.len() ==> lawful(#[trigger] links[i], count)
}

/// Whether `id` is an end of the edge.
pub open spec fn touches(link: Link, id: usize) -> bool {
    link.from == id || link.to == id
}

/// The end of an edge at `id` that is not `id`.
pub open spec fn other_end(link: Link, id: usize) -> usize {
    if link.from == id {
        link.to
    } else {
        link.from
    }
}

/// Whether a `Frame` edge joins `mid` to a node that is closer than `least`,
/// by `distances`.
pub open spec fn hemmed(links: Seq<Link>, mid: usize, distances: Seq<Scalar>, least: Scalar) -> bool {
    exists|link: Link|
        #![trigger links.contains(link)]
        {
            &&& links.contains(link)
            &&& link.kind == EdgeType::Frame
            &&& touches(link, mid)
            &&& other_end(link, mid) < distances.len()
            &&& distances[other_end(link, mid) as int].below(least)
        }
}

/// Whether a candidate around `host` is too close to a two-hop neighbour of
/// `host`: a node that a `Frame` edge joins to a node that an `Overlapping`
/// edge joins to `host`. Neither edge is followed in a direction; what
/// counts is that it has the node as one of its ends.
pub open spec fn crowded(links: Seq<Link>, host: usize, distances: Seq<Scalar>, least: Scalar) -> bool {
    exists|link: Link|
        #![trigger links.contains(link)]
        {
            &&& links.contains(link)
            &&& link.kind == EdgeType::Overlapping
            &&& touches(link, host)
            &&& hemmed(links, other_end(link, host), distances, least)
        }
}

/// The state of a generation.
#[verifier::ext_equal]
pub struct Model {
    pub config: GalaxyBuilder,
    /// The node weights, by identifier.
    pub nodes: Seq<DataPoint<NodeType>>,
    /// The edges, in the order in which they were added.
    pub links: Seq<Link>,
    pub state: Registers,
}

impl Model {
    /// The identifier that the next node gets.
    pub open spec fn count(self) -> usize {
        self.nodes.len() as usize
    }

    /// The state a generation starts in: the root alone, waiting for the
    /// reach.
    pub open spec fn start(config: GalaxyBuilder, center: Point) -> Model {
        Model {
            config,
            nodes: seq![DataPoint { point: center, data: NodeType::Root }],
            links: Seq::empty(),
            state: Registers {
                phase: Phase::Reach,
                center,
                reach: Scalar::zero(),
                arm: 0,
                bone: 0,
                heading: Scalar::zero(),
                angle: Scalar::zero(),
                divisor: Scalar::one(),
                tip: 0,
                position: center,
                direction: center,
                normale: center,
                parts: 1,
                step: 1,
                plus_end: 0,
                minus_end: 0,
                radius: Scalar::zero(),
                loner: 0,
                hosts: 0,
                host: 0,
                draw: 0,
            },
        }
    }

    /// A node is added, with an `Overlapping` edge to every older node
    /// within reach.
    pub open spec fn put(self, point: Point, kind: NodeType, distances: Seq<Scalar>) -> Model {
        Model {
            nodes: self.nodes.push(DataPoint { point, data: kind }),
            links: self.links + overlaps(self.count(), distances, self.state.reach),
            ..self
        }
    }

    /// A `Frame` edge is added.
    pub open spec fn join(self, from: usize, to: usize) -> Model {
        Model { links: self.links.push(Link { from, to, kind: EdgeType::Frame }), ..self }
    }

    /// Whether the store can take `nodes` more nodes and `links` more edges:
    /// its identifiers are 32 bits wide, and the largest is kept free.
    pub open spec fn room(self, nodes: nat, links: nat) -> bool {
        &&& self.nodes.len() + nodes <= u32::MAX
        &&& self.links.len() + links <= u32::MAX
    }

    /// How many `Overlapping` edges a node with these distances gets.
    pub open spec fn nearby(self, distances: Seq<Scalar>) -> nat {
        near(distances, self.state.reach)
    }

    /// Whether a candidate with these distances is kept: always when no
    /// least distance is set, else when the candidate is not [`crowded`].
    pub open spec fn keeps(self, distances: Seq<Scalar>) -> bool {
        match self.config.min_distance {
            Some(least) => !crowded(self.links, self.state.host, distances, least),
            None => true,
        }
    }

    /// The arm numbered `state.arm` begins, or the arms are complete.
    pub open spec fn enter_arm(self) -> Model {
        if self.state.arm >= self.config.nb_arms {
            Model { state: Registers { phase: Phase::Radius, ..self.state }, ..self }
        } else {
            Model {
                state: Registers {
                    phase: if self.config.nb_arm_bones == 0 {
                        Phase::Turn
                    } else {
                        Phase::Bone
                    },
                    bone: 0,
                    tip: 0,
                    position: self.state.center,
                    angle: self.state.heading,
                    divisor: Scalar::one(),
                    ..self.state
                },
                ..self
            }
        }
    }

    /// A link and its branch are complete.
    pub open spec fn after_bone(self) -> Model {
        let bone = (self.state.bone + 1) as u64;
        Model {
            state: Registers {
                phase: if bone >= self.config.nb_arm_bones {
                    Phase::Turn
                } else {
                    Phase::Bone
                },
                bone,
                ..self.state
            },
            ..self
        }
    }

    /// The skeleton is complete: every node placed so far gets a cloud.
    pub open spec fn enter_cloud(self) -> Model {
        Model {
            state: Registers {
                phase: if self.config.cloud_population == 0 {
                    Phase::Done
                } else {
                    Phase::Candidate
                },
                hosts: self.count(),
                host: 0,
                draw: 0,
                ..self.state
            },
            ..self
        }
    }

    /// The radius is known: the outliers begin, if there are any.
    pub open spec fn enter_loners(self) -> Model {
        if self.config.nb_loners == 0 {
            self.enter_cloud()
        } else {
            Model { state: Registers { phase: Phase::Loner, ..self.state }, ..self }
        }
    }

    /// A candidate was dealt with.
    pub open spec fn after_draw(self) -> Model {
        let draw = (self.state.draw + 1) as u64;
        let host = (self.state.host + 1) as usize;
        if draw < self.config.cloud_population {
            Model { state: Registers { draw, ..self.state }, ..self }
        } else {
            Model {
                state: Registers {
                    phase: if host >= self.state.hosts {
                        Phase::Done
                    } else {
                        Phase::Candidate
                    },
                    host,
                    draw: 0,
                    ..self.state
                },
                ..self
            }
        }
    }

    /// The reach is known: the first arm begins.
    pub open spec fn on_reach(self, reach: Scalar) -> Model {
        Model {
            state: Registers { reach, arm: 0, heading: Scalar::zero(), ..self.state },
            ..self
        }.enter_arm()
    }

    /// A link is added to the arm: an `Arm` node, joined to the end of the
    /// arm so far. From the second link on, a branch follows.
    pub open spec fn on_bone(
        self,
        position: Point,
        direction: Point,
        angle: Scalar,
        divisor: Scalar,
        distances: Seq<Scalar>,
    ) -> Model {
        let id = self.count();
        let grown = self.put(position, NodeType::Arm, distances).join(self.state.tip, id);
        let moved = Model {
            state: Registers { tip: id, position, direction, angle, divisor, ..self.state },
            ..grown
        };
        if self.state.bone != 0 {
            Model { state: Registers { phase: Phase::Span, ..moved.state }, ..moved }
        } else {
            moved.after_bone()
        }
    }

    /// A branch begins: it gets one point more on each side than the number
    /// of whole strides in its span.
    pub open spec fn on_span(self, normale: Point, whole: u32) -> Model {
        Model {
            state: Registers {
                phase: Phase::Offset,
                normale,
                parts: (whole + 1) as u64,
                step: 1,
                plus_end: self.state.tip,
                minus_end: self.state.tip,
                ..self.state
            },
            ..self
        }
    }

    /// A pair of `Ext` nodes is added, one to the end of each side of the
    /// branch.
    pub open spec fn on_offset(
        self,
        plus: Point,
        minus: Point,
        plus_distances: Seq<Scalar>,
        minus_distances: Seq<Scalar>,
    ) -> Model {
        let first = self.count();
        let second = (first + 1) as usize;
        let grown = self.put(plus, NodeType::Ext, plus_distances).put(
            minus,
            NodeType::Ext,
            minus_distances,
        ).join(self.state.plus_end, first).join(self.state.minus_end, second);
        let step = (self.state.step + 1) as u64;
        let moved = Model {
            state: Registers { plus_end: first, minus_end: second, step, ..self.state },
            ..grown
        };
        if step > self.state.parts {
            moved.after_bone()
        } else {
            moved
        }
    }

    /// An arm is complete: the next one begins at the angle given.
    pub open spec fn on_turn(self, angle: Scalar) -> Model {
        Model {
            state: Registers { heading: angle, arm: (self.state.arm + 1) as u64, ..self.state },
            ..self
        }.enter_arm()
    }

    /// The radius of the galaxy is the largest distance from the root.
    pub open spec fn on_radius(self, distances: Seq<Scalar>) -> Model {
        Model {
            state: Registers { radius: peak(distances), loner: 0, ..self.state },
            ..self
        }.enter_loners()
    }

    /// A `Loner` node is added, joined to nothing.
    pub open spec fn on_loner(self, point: Point, distances: Seq<Scalar>) -> Model {
        let loner = (self.state.loner + 1) as u64;
        let grown = self.put(point, NodeType::Loner, distances);
        let moved = Model { state: Registers { loner, ..self.state }, ..grown };
        if loner >= self.config.nb_loners {
            moved.enter_cloud()
        } else {
            moved
        }
    }

    /// A candidate that is kept becomes a `System` node, joined to its
    /// host; one that is not is dropped. Either way the draw is used up.
    pub open spec fn on_candidate(self, point: Point, distances: Seq<Scalar>) -> Model {
        if self.keeps(distances) {
            self.put(point, NodeType::System, distances).join(self.state.host, self.count()).after_draw()
        } else {
            self.after_draw()
        }
    }

    /// What the generation is waiting for.
    pub open spec fn request(self) -> Request {
        match self.state.phase {
            Phase::Reach => Request::Reach,
            Phase::Bone => Request::Bone {
                from: self.state.position,
                angle: self.state.angle,
                divisor: self.state.divisor,
            },
            Phase::Span => Request::Span {
                normal: self.state.direction.quarter_turn(),
                iteration: self.state.bone,
            },
            Phase::Offset => Request::Offset {
                origin: self.state.position,
                normale: self.state.normale,
                parts: self.state.parts,
                step: self.state.step,
            },
            Phase::Turn => Request::Turn { angle: self.state.heading },
            Phase::Radius => Request::Radius { center: self.state.center },
            Phase::Loner => Request::Loner { center: self.state.center, radius: self.state.radius },
            Phase::Candidate => Request::Candidate { around: self.nodes[self.state.host as int].point },
            Phase::Done => Request::Done,
        }
    }

    /// Why a reply is refused, if it is.
    pub open spec fn fault(self, reply: Reply) -> Option<Fault> {
        let count = self.nodes.len();
        match (self.state.phase, reply) {
            (Phase::Reach, Reply::Reach(_)) => None,
            (Phase::Bone, Reply::Bone { distances, .. }) => if distances@.len() != count {
                Some(Fault::Mismatch)
            } else if !self.room(1, self.nearby(distances@) + 1) {
                Some(Fault::Full)
            } else {
                None
            },
            (Phase::Span, Reply::Span { .. }) => None,
            (Phase::Offset, Reply::Offset { plus_distances, minus_distances, .. }) => if plus_distances@.len()
                != count || minus_distances@.len() != count + 1 {
                Some(Fault::Mismatch)
            } else if !self.room(2, self.nearby(plus_distances@) + self.nearby(minus_distances@) + 2) {
                Some(Fault::Full)
            } else {
                None
            },
            (Phase::Turn, Reply::Turn(_)) => None,
            (Phase::Radius, Reply::Radius(distances)) => if distances@.len() != count {
                Some(Fault::Mismatch)
            } else {
                None
            },
            (Phase::Loner, Reply::Placed { distances, .. }) => if distances@.len() != count {
                Some(Fault::Mismatch)
            } else if !self.room(1, self.nearby(distances@)) {
                Some(Fault::Full)
            } else {
                None
            },
            (Phase::Candidate, Reply::Placed { distances, .. }) => if distances@.len() != count {
                Some(Fault::Mismatch)
            } else if self.keeps(distances@) && !self.room(1, self.nearby(distances@) + 1) {
                Some(Fault::Full)
            } else {
                None
            },
            _ => Some(Fault::Mismatch),
        }
    }

    /// The state after a reply that is not refused.
    pub open spec fn advance(self, reply: Reply) -> Model {
        match reply {
            Reply::Reach(reach) => self.on_reach(reach),
            Reply::Bone { position, direction, angle, divisor, distances } => self.on_bone(
                position,
                direction,
                angle,
                divisor,
                distances@,
            ),
            Reply::Span { normale, whole } => self.on_span(normale, whole),
            Reply::Offset { plus, minus, plus_distances, minus_distances } => self.on_offset(
                plus,
                minus,
                plus_distances@,
                minus_distances@,
            ),
            Reply::Turn(angle) => self.on_turn(angle),
            Reply::Radius(distances) => self.on_radius(distances@),
            Reply::Placed { point, distances } => if self.state.phase == Phase::Loner {
                self.on_loner(point, distances@)
            } else {
                self.on_candidate(point, distances@)
            },
        }
    }

    /// How many `Arm` nodes there are at this point of the generation.
    pub open spec fn arms_placed(self) -> int {
        let full = self.state.arm * self.config.nb_arm_bones;
        match self.state.phase {
            Phase::Reach => 0,
            Phase::Bone => full + self.state.bone,
            Phase::Span | Phase::Offset => full + self.state.bone + 1,
            Phase::Turn => full + self.config.nb_arm_bones,
            _ => self.config.nb_arms * self.config.nb_arm_bones,
        }
    }

    /// How many `Loner` nodes there are at this point of the generation.
    pub open spec fn loners_placed(self) -> int {
        match self.state.phase {
            Phase::Loner => self.state.loner as int,
            Phase::Candidate | Phase::Done => self.config.nb_loners as int,
            _ => 0,
        }
    }

    /// Whether the generation is complete and `galaxy` is what it made: all of
    /// its nodes, and its `Frame` edges without their label.
    pub open spec fn completes(self, galaxy: Galaxy) -> bool {
        &&& self.state.phase == Phase::Done
        &&& galaxy.nodes() == self.nodes
        &&& galaxy.links() == frame_pairs(self.links)
    }

    /// How far the generation is from its end, by stage: the reach, the arms,
    /// the radius, the outliers, the clouds.
    pub open spec fn stages_left(self) -> int {
        match self.state.phase {
            Phase::Reach => 5,
            Phase::Bone | Phase::Span | Phase::Offset | Phase::Turn => 4,
            Phase::Radius => 3,
            Phase::Loner => 2,
            Phase::Candidate => 1,
            Phase::Done => 0,
        }
    }

    /// How many arms are not complete.
    pub open spec fn arms_left(self) -> int {
        match self.state.phase {
            Phase::Bone | Phase::Span | Phase::Offset | Phase::Turn => self.config.nb_arms - self.state.arm,
            _ => 0,
        }
    }

    /// How many links of the arm are not complete.
    pub open spec fn bones_left(self) -> int {
        match self.state.phase {
            Phase::Bone | Phase::Span | Phase::Offset => self.config.nb_arm_bones - self.state.bone,
            _ => 0,
        }
    }

    /// How much of the link is not done: the link itself, the span of its
    /// branch, the branch.
    pub open spec fn parts_left(self) -> int {
        match self.state.phase {
            Phase::Bone => 3,
            Phase::Span => 2,
            Phase::Offset => 1,
            _ => 0,
        }
    }

    /// How many pairs of branch points are not placed.
    pub open spec fn pairs_left(self) -> int {
        match self.state.phase {
            Phase::Offset => self.state.parts + 1 - self.state.step,
            _ => 0,
        }
    }

    /// How many outliers are not placed.
    pub open spec fn loners_left(self) -> int {
        match self.state.phase {
            Phase::Loner => self.config.nb_loners - self.state.loner,
            _ => 0,
        }
    }

    /// How many hosts have no complete cloud.
    pub open spec fn hosts_left(self) -> int {
        match self.state.phase {
            Phase::Candidate => self.state.hosts - self.state.host,
            _ => 0,
        }
    }

    /// How many candidates of the host are not drawn.
    pub open spec fn draws_left(self) -> int {
        match self.state.phase {
            Phase::Candidate => self.config.cloud_population - self.state.draw,
            _ => 0,
        }
    }

    /// How many `System` nodes there are at most at this point of the
    /// generation: one for every candidate dealt with.
    pub open spec fn systems_due(self) -> int {
        match self.state.phase {
            Phase::Candidate => self.state.host * self.config.cloud_population + self.state.draw,
            Phase::Done => self.state.hosts * self.config.cloud_population,
            _ => 0,
        }
    }

    /// The graph is one that an append-only construction can have made: it
    /// fits its index type, its first node is the root, its edges are lawful,
    /// and its `Frame` edges follow the kinds of its nodes.
    pub open spec fn graph_wf(self) -> bool {
        &&& 1 <= self.nodes.len() <= u32::MAX
        &&& self.links.len() <= u32::MAX
        &&& self.nodes[0] == (DataPoint { point: self.state.center, data: NodeType::Root })
        &&& sound(self.links, self.nodes.len())
        &&& shaped(self.links, self.nodes)
    }

    /// The nodes of each kind are as many as the generation has placed, and
    /// every link of an arm, every branch point and every cloud point has one
    /// `Frame` edge, the one it hangs on.
    pub open spec fn census_wf(self) -> bool {
        &&& census(self.nodes, NodeType::Root) == 1
        &&& census(self.nodes, NodeType::Arm) == self.arms_placed()
        &&& census(self.nodes, NodeType::Ext) % 2 == 0
        &&& census(self.nodes, NodeType::Loner) == self.loners_placed()
        &&& census(self.nodes, NodeType::System) <= self.systems_due()
        &&& self.config.min_distance.is_none() ==> census(self.nodes, NodeType::System)
            == self.systems_due()
        &&& frame_pairs(self.links).len() == census(self.nodes, NodeType::Arm) + census(
            self.nodes,
            NodeType::Ext,
        ) + census(self.nodes, NodeType::System)
    }

    /// The variables of the current phase are within their bounds.
    pub open spec fn phase_wf(self) -> bool {
        let count = self.nodes.len();
        let state = self.state;
        let config = self.config;
        match state.phase {
            Phase::Reach => count == 1,
            Phase::Bone => {
                &&& state.arm < config.nb_arms
                &&& state.bone < config.nb_arm_bones
                &&& state.tip < count
                &&& self.nodes[state.tip as int].point == state.position
                &&& self.nodes[state.tip as int].data == if state.bone == 0 {
                    NodeType::Root
                } else {
                    NodeType::Arm
                }
            },
            Phase::Span => {
                &&& state.arm < config.nb_arms
                &&& 1 <= state.bone < config.nb_arm_bones
                &&& state.tip < count
                &&& self.nodes[state.tip as int] == (DataPoint { point: state.position, data: NodeType::Arm })
            },
            Phase::Offset => {
                &&& state.arm < config.nb_arms
                &&& 1 <= state.bone < config.nb_arm_bones
                &&& state.tip < count
                &&& self.nodes[state.tip as int] == (DataPoint { point: state.position, data: NodeType::Arm })
                &&& 1 <= state.step <= state.parts <= u32::MAX + 1
                &&& state.plus_end < count
                &&& state.minus_end < count
                &&& self.nodes[state.plus_end as int].data == if state.step == 1 {
                    NodeType::Arm
                } else {
                    NodeType::Ext
                }
                &&& self.nodes[state.minus_end as int].data == self.nodes[state.plus_end as int].data
            },
            Phase::Turn => state.arm < config.nb_arms,
            Phase::Radius => true,
            Phase::Loner => state.loner < config.nb_loners,
            Phase::Candidate => {
                &&& state.host < state.hosts
                &&& state.draw < config.cloud_population
            },
            Phase::Done => true,
        }
    }

    /// Once the clouds have begun, the nodes placed before them are the
    /// hosts, and every node after them is a cloud point.
    pub open spec fn cloud_wf(self) -> bool {
        let hosts = self.state.hosts;
        (self.state.phase == Phase::Candidate || self.state.phase == Phase::Done) ==> {
            &&& 1 <= hosts <= self.nodes.len()
            &&& forall|i: int|
                0 <= i < self.nodes.len() ==> ((#[trigger] self.nodes[i]).data == NodeType::System <==> hosts
                    <= i)
        }
    }

    /// What holds of every state that a generation goes through.
    pub open spec fn wf(self) -> bool {
        &&& self.graph_wf()
        &&& self.census_wf()
        &&& self.phase_wf()
        &&& self.cloud_wf()
    }
}

} // verus!
