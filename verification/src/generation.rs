//! A galaxy in the making.

use vstd::prelude::*;
use petgraph::graph::Graph;
use crate::builder::GalaxyBuilder;
use crate::frame::{EdgeType, Link, NodeType};
use crate::galaxy::Galaxy;
use crate::laws::{after, lemma_advance_appends, lemma_after_push, lemma_progress};
use crate::lemmas::{
    lemma_incoming, lemma_near_step, lemma_outgoing, lemma_overlaps_len, lemma_overlaps_step, lemma_peak_step,
};
use crate::model::{census, crowded, hemmed, near, other_end, overlaps, peak, sound, touches, Model};
use crate::point::{DataPoint, Point};
use crate::protocol::{Fault, Phase, Registers, Reply, Request};
use crate::scalar::Scalar;
use crate::steps::{
    lemma_on_bone_wf, lemma_on_candidate_wf, lemma_on_loner_wf, lemma_on_offset_wf, lemma_on_radius_wf,
    lemma_on_reach_wf, lemma_on_turn_wf, lemma_start_wf,
};
use crate::store::{
    store_add_edge, store_add_node, store_edge_count, store_edges, store_edges_into, store_links,
    store_new, store_node, store_node_count, store_nodes,
};

verus! {

/// A galaxy under construction: the graph so far and where the construction
/// stands. [`Generation::request`] says which calculation it is waiting for,
/// and [`Generation::advance`] takes the result.
pub struct Generation {
    config: GalaxyBuilder,
    frame: Graph<DataPoint<NodeType>, EdgeType>,
    state: Registers,
}

impl View for Generation {
    type V = Model;

    /// The state as the model sees it: the options, what the graph holds, and
    /// the variables.
    closed spec fn view(&self) -> Model {
        Model {
            config: self.config,
            nodes: store_nodes(self.frame),
            links: store_links(self.frame),
            state: self.state,
        }
    }
}

/// Adds a node and an `Overlapping` edge from it to every older node whose
/// distance from it lies below `reach`.
fn add_node(
    frame: &mut Graph<DataPoint<NodeType>, EdgeType>,
    weight: DataPoint<NodeType>,
    distances: &Vec<Scalar>,
    reach: Scalar,
) -> (id: usize)
    requires
        distances@.len() == store_nodes(*old(frame)).len(),
        store_nodes(*old(frame)).len() < u32::MAX,
        store_links(*old(frame)).len() + near(distances@, reach) <= u32::MAX,
    ensures
        id == store_nodes(*old(frame)).len(),
        store_nodes(*final(frame)) == store_nodes(*old(frame)).push(weight),
        store_links(*final(frame)) == store_links(*old(frame)) + overlaps(id, distances@, reach),
{
    let ghost nodes = store_nodes(*frame);
    let ghost links = store_links(*frame);
    let id = store_add_node(frame, weight);
    let mut other: usize = 0;
    while other < id
        invariant
            other <= id,
            id == nodes.len() == distances@.len(),
            id < u32::MAX,
            links.len() + near(distances@, reach) <= u32::MAX,
            store_nodes(*frame) == nodes.push(weight),
            store_links(*frame) == links + overlaps(id, distances@.take(other as int), reach),
        decreases id - other,
    {
        proof {
            lemma_overlaps_step(id, distances@, reach, other as int);
            lemma_overlaps_len(id, distances@.take(other as int), reach);
            lemma_near_step(distances@, reach, other as int);
        }
        if distances[other].lt(reach) {
            store_add_edge(frame, id, other, EdgeType::Overlapping);
        }
        other += 1;
    }
    assert(distances@.take(id as int) =~= distances@);
    id
}

/// How many of the distances lie below `reach`.
fn count_near(distances: &Vec<Scalar>, reach: Scalar) -> (count: usize)
    ensures
        count == near(distances@, reach),
        count <= distances@.len(),
{
    let mut count: usize = 0;
    let mut i: usize = 0;
    while i < distances.len()
        invariant
            i <= distances@.len(),
            count == near(distances@.take(i as int), reach),
            count <= i,
        decreases distances@.len() - i,
    {
        proof {
            lemma_near_step(distances@, reach, i as int);
        }
        if distances[i].lt(reach) {
            count += 1;
        }
        i += 1;
    }
    assert(distances@.take(i as int) =~= distances@);
    count
}

/// The largest of the distances, from zero up.
fn largest(distances: &Vec<Scalar>) -> (r: Scalar)
    ensures
        r == peak(distances@),
{
    let mut best = Scalar::from_bits(0);
    let mut i: usize = 0;
    while i < distances.len()
        invariant
            i <= distances@.len(),
            best == peak(distances@.take(i as int)),
        decreases distances@.len() - i,
    {
        proof {
            lemma_peak_step(distances@, i as int);
        }
        best = best.max(distances[i]);
        i += 1;
    }
    assert(distances@.take(i as int) =~= distances@);
    best
}

/// The edges that have `id` as an end: those that leave it, then those that
/// arrive at it.
fn incident(frame: &Graph<DataPoint<NodeType>, EdgeType>, id: usize) -> (found: Vec<Link>)
    requires
        id < store_nodes(*frame).len() <= u32::MAX,
    ensures
        forall|link: Link| #[trigger]
            found@.contains(link) <==> store_links(*frame).contains(link) && touches(link, id),
{
    let mut found = store_edges(frame, id);
    let mut arriving = store_edges_into(frame, id);
    let ghost leaving = found@;
    let ghost coming = arriving@;
    found.append(&mut arriving);
    proof {
        lemma_outgoing(store_links(*frame), id);
        lemma_incoming(store_links(*frame), id);
        assert forall|link: Link| #[trigger]
            found@.contains(link) <==> leaving.contains(link) || coming.contains(link) by {
            if leaving.contains(link) {
                let k = choose|k: int| 0 <= k < leaving.len() && leaving[k] == link;
                assert(found@[k] == link);
            }
            if coming.contains(link) {
                let k = choose|k: int| 0 <= k < coming.len() && coming[k] == link;
                assert(found@[leaving.len() + k] == link);
            }
        }
    }
    found
}

/// The end of an edge at `id` that is not `id`.
fn other(link: Link, id: usize) -> (end: usize)
    ensures
        end == other_end(link, id),
{
    if link.from == id {
        link.to
    } else {
        link.from
    }
}

/// Whether a `Frame` edge joins `mid` to a node closer than `least`.
fn is_hemmed(
    frame: &Graph<DataPoint<NodeType>, EdgeType>,
    mid: usize,
    distances: &Vec<Scalar>,
    least: Scalar,
) -> (r: bool)
    requires
        mid < store_nodes(*frame).len() <= u32::MAX,
        distances@.len() == store_nodes(*frame).len(),
        sound(store_links(*frame), store_nodes(*frame).len()),
    ensures
        r == hemmed(store_links(*frame), mid, distances@, least),
{
    let beyond = incident(frame, mid);
    let ghost links = store_links(*frame);
    let mut b: usize = 0;
    while b < beyond.len()
        invariant
            b <= beyond@.len(),
            links == store_links(*frame),
            distances@.len() == store_nodes(*frame).len(),
            sound(links, store_nodes(*frame).len()),
            forall|link: Link| #[trigger] beyond@.contains(link) <==> links.contains(link) && touches(link, mid),
            forall|k: int|
                0 <= k < b ==> !({
                    &&& (#[trigger] beyond@[k]).kind == EdgeType::Frame
                    &&& other_end(beyond@[k], mid) < distances@.len()
                    &&& distances@[other_end(beyond@[k], mid) as int].below(least)
                }),
        decreases beyond@.len() - b,
    {
        let link = beyond[b];
        proof {
            assert(beyond@.contains(link));
        }
        if link.kind == EdgeType::Frame && distances[other(link, mid)].lt(least) {
            return true;
        }
        b += 1;
    }
    proof {
        if hemmed(links, mid, distances@, least) {
            let link = choose|link: Link|
                #![trigger links.contains(link)]
                {
                    &&& links.contains(link)
                    &&& link.kind == EdgeType::Frame
                    &&& touches(link, mid)
                    &&& other_end(link, mid) < distances@.len()
                    &&& distances@[other_end(link, mid) as int].below(least)
                };
            assert(beyond@.contains(link));
        }
    }
    false
}

/// Whether a candidate around `host` is too close to a two-hop neighbour of
/// `host`.
fn is_crowded(
    frame: &Graph<DataPoint<NodeType>, EdgeType>,
    host: usize,
    distances: &Vec<Scalar>,
    least: Scalar,
) -> (r: bool)
    requires
        host < store_nodes(*frame).len() <= u32::MAX,
        distances@.len() == store_nodes(*frame).len(),
        sound(store_links(*frame), store_nodes(*frame).len()),
    ensures
        r == crowded(store_links(*frame), host, distances@, least),
{
    let near = incident(frame, host);
    let ghost links = store_links(*frame);
    let mut a: usize = 0;
    while a < near.len()
        invariant
            a <= near@.len(),
            links == store_links(*frame),
            host < store_nodes(*frame).len() <= u32::MAX,
            distances@.len() == store_nodes(*frame).len(),
            sound(links, store_nodes(*frame).len()),
            forall|link: Link| #[trigger] near@.contains(link) <==> links.contains(link) && touches(link, host),
            forall|k: int|
                0 <= k < a ==> !({
                    &&& (#[trigger] near@[k]).kind == EdgeType::Overlapping
                    &&& hemmed(links, other_end(near@[k], host), distances@, least)
                }),
        decreases near@.len() - a,
    {
        let link = near[a];
        proof {
            assert(near@.contains(link));
        }
        if link.kind == EdgeType::Overlapping && is_hemmed(frame, other(link, host), distances, least) {
            return true;
        }
        a += 1;
    }
    proof {
        if crowded(links, host, distances@, least) {
            let link = choose|link: Link|
                #![trigger links.contains(link)]
                {
                    &&& links.contains(link)
                    &&& link.kind == EdgeType::Overlapping
                    &&& touches(link, host)
                    &&& hemmed(links, other_end(link, host), distances@, least)
                };
            assert(near@.contains(link));
        }
    }
    false
}

/// Whether `reply` is a reply of `perform` to what a generation in state `m`
/// asks for.
pub open spec fn asked<F: Fn(&Generation, Request) -> Reply>(perform: F, m: Model, reply: Reply) -> bool {
    exists|at: Generation| #![trigger at@] at@ == m && perform.ensures((&at, m.request()), reply)
}

/// Whether each of `replies` is a reply of `perform` to what the generation
/// asked for when its turn came, and was taken.
pub open spec fn answered<F: Fn(&Generation, Request) -> Reply>(
    perform: F,
    start: Model,
    replies: Seq<Reply>,
) -> bool
    decreases replies.len(),
{
    replies.len() == 0 || {
        &&& answered(perform, start, replies.drop_last())
        &&& asked(perform, after(start, replies.drop_last()), replies.last())
        &&& after(start, replies.drop_last()).fault(replies.last()).is_none()
    }
}

impl GalaxyBuilder {
    /// Begins a galaxy around `center`: the root is placed, and everything
    /// else follows from the replies given to the generation. There is no
    /// generation for a configuration whose least distance exceeds its
    /// cloud radius.
    pub fn build(&self, center: Point) -> (r: Option<Generation>)
        ensures
            r.is_some() == self.accepted(),
            r matches Some(generation) ==> generation@ == Model::start(*self, center)
                && generation@.wf(),
    {
        if !self.is_accepted() {
            return None;
        }
        let mut frame = store_new();
        let alone: Vec<Scalar> = Vec::new();
        let zero = Scalar::from_bits(0);
        let root = add_node(&mut frame, DataPoint::from_point(center, NodeType::Root), &alone, zero);
        let generation = Generation {
            config: *self,
            frame,
            state: Registers {
                phase: Phase::Reach,
                center,
                reach: zero,
                arm: 0,
                bone: 0,
                heading: zero,
                angle: zero,
                divisor: Scalar::from_bits(0x3ff0_0000_0000_0000),
                tip: root,
                position: center,
                direction: center,
                normale: center,
                parts: 1,
                step: 1,
                plus_end: root,
                minus_end: root,
                radius: zero,
                loner: 0,
                hosts: 0,
                host: 0,
                draw: 0,
            },
        };
        proof {
            lemma_start_wf(*self, center);
        }
        Some(generation)
    }
}

impl Generation {
    /// What the generation is waiting for.
    pub fn request(&self) -> (r: Request)
        requires
            self@.wf(),
        ensures
            r == self@.request(),
    {
        match self.state.phase {
            Phase::Reach => Request::Reach,
            Phase::Bone => Request::Bone {
                from: self.state.position,
                angle: self.state.angle,
                divisor: self.state.divisor,
            },
            Phase::Span => Request::Span {
                normal: self.state.direction.minusb_a(),
                iteration: self.state.bone,
            },
            Phase::Offset => Request::Offset {
                origin: self.state.position,
                normale: self.state.normale,
                parts: self.state.parts,
                step: self.state.step,
            },
            Phase::Turn => Request::Turn { angle: self.state.heading },
            Phase::Radius => Request::Radius { center: self.state.center },
            Phase::Loner => Request::Loner { center: self.state.center, radius: self.state.radius },
            Phase::Candidate => Request::Candidate { around: store_node(&self.frame, self.state.host).point },
            Phase::Done => Request::Done,
        }
    }

    /// Whether the galaxy is complete.
    pub fn is_done(&self) -> (r: bool)
        ensures
            r == (self@.state.phase == Phase::Done),
    {
        self.state.phase == Phase::Done
    }

    /// The position of every node placed so far, by identifier.
    pub fn positions(&self) -> (r: Vec<Point>)
        requires
            self@.wf(),
        ensures
            r@.len() == self@.nodes.len(),
            forall|i: int| 0 <= i < r@.len() ==> r@[i] == self@.nodes[i].point,
    {
        let count = store_node_count(&self.frame);
        let mut points: Vec<Point> = Vec::new();
        let mut i: usize = 0;
        while i < count
            invariant
                i <= count == store_nodes(self.frame).len() <= u32::MAX,
                points@.len() == i,
                forall|k: int| 0 <= k < i ==> points@[k] == store_nodes(self.frame)[k].point,
            decreases count - i,
        {
            points.push(store_node(&self.frame, i).point);
            i += 1;
        }
        points
    }

    /// Takes the result of the pending calculation and moves on. A reply
    /// that does not fit is refused and changes nothing.
    pub fn advance(&mut self, reply: Reply) -> (r: Result<(), Fault>)
        requires
            old(self)@.wf(),
        ensures
            final(self)@.wf(),
            match r {
                Ok(()) => old(self)@.fault(reply).is_none() && final(self)@ == old(self)@.advance(reply),
                Err(fault) => old(self)@.fault(reply) == Some(fault) && final(self)@ == old(self)@,
            },
    {
        match reply {
            Reply::Reach(reach) => self.set_reach(reach),
            Reply::Bone { position, direction, angle, divisor, distances } => self.populate_arm(
                position,
                direction,
                angle,
                divisor,
                distances,
            ),
            Reply::Span { normale, whole } => self.open_ext(normale, whole),
            Reply::Offset { plus, minus, plus_distances, minus_distances } => self.populate_ext(
                plus,
                minus,
                plus_distances,
                minus_distances,
            ),
            Reply::Turn(angle) => self.turn(angle),
            Reply::Radius(distances) => self.set_radius(distances),
            Reply::Placed { point, distances } => match self.state.phase {
                Phase::Loner => self.populate_loner(point, distances),
                Phase::Candidate => self.populate_cloud(point, distances),
                _ => Err(Fault::Mismatch),
            },
        }
    }

    /// The galaxy, once it is complete: every node, and the `Frame` edges.
    pub fn finish(self) -> (r: Option<Galaxy>)
        requires
            self@.wf(),
        ensures
            r.is_some() == (self@.state.phase == Phase::Done),
            r matches Some(galaxy) ==> {
                &&& galaxy.wf()
                &&& self@.completes(galaxy)
                &&& census(galaxy.nodes(), NodeType::Arm) == self@.config.nb_arms
                    * self@.config.nb_arm_bones
                &&& census(galaxy.nodes(), NodeType::Loner) == self@.config.nb_loners
            },
    {
        if self.state.phase == Phase::Done {
            Some(Galaxy::from_frame(&self.frame))
        } else {
            None
        }
    }

    /// Leads the generation to its end: as long as something is asked for,
    /// `perform` is called with the request and its reply is taken. The
    /// galaxy that comes out is the one that the replies of `perform` lead
    /// to. The first of them that is refused ends the run with its fault;
    /// nothing else does.
    pub fn run<F>(self, perform: F) -> (r: Result<Galaxy, Fault>) where F: Fn(&Generation, Request) -> Reply
        requires
            self@.wf(),
            forall|generation: &Generation, request: Request|
                generation@.wf() && request == generation@.request() ==> #[trigger] perform.requires(
                    (generation, request),
                ),
        ensures
            match r {
                Ok(galaxy) => {
                    &&& galaxy.wf()
                    &&& census(galaxy.nodes(), NodeType::Arm) == self@.config.nb_arms
                        * self@.config.nb_arm_bones
                    &&& census(galaxy.nodes(), NodeType::Loner) == self@.config.nb_loners
                    &&& exists|replies: Seq<Reply>|
                        {
                            &&& answered(perform, self@, replies)
                            &&& (#[trigger] after(self@, replies)).completes(galaxy)
                        }
                },
                Err(fault) => exists|replies: Seq<Reply>, reply: Reply|
                    {
                        &&& answered(perform, self@, replies)
                        &&& asked(perform, after(self@, replies), reply)
                        &&& (#[trigger] after(self@, replies).fault(reply)) == Some(fault)
                    },
            },
    {
        let mut generation = self;
        let ghost mut replies: Seq<Reply> = Seq::empty();
        while !generation.is_done()
            invariant
                generation@.wf(),
                generation@ == after(self@, replies),
                generation@.config == self@.config,
                answered(perform, self@, replies),
                forall|generation: &Generation, request: Request|
                    generation@.wf() && request == generation@.request() ==> #[trigger] perform.requires(
                        (generation, request),
                    ),
            decreases
                    generation@.stages_left(),
                    generation@.arms_left(),
                    generation@.bones_left(),
                    generation@.parts_left(),
                    generation@.pairs_left(),
                    generation@.loners_left(),
                    generation@.hosts_left(),
                    generation@.draws_left(),
        {
            let request = generation.request();
            let reply = perform(&generation, request);
            let ghost given = reply;
            proof {
                assert(asked(perform, generation@, given));
                lemma_after_push(self@, replies, given);
                if generation@.fault(given).is_none() {
                    lemma_progress(generation@, given);
                    lemma_advance_appends(generation@, given);
                    assert(replies.push(given).drop_last() =~= replies);
                }
            }
            match generation.advance(reply) {
                Ok(()) => {
                    proof {
                        replies = replies.push(given);
                    }
                },
                Err(fault) => {
                    return Err(fault);
                },
            }
        }
        match generation.finish() {
            Some(galaxy) => Ok(galaxy),
            None => Err(Fault::Mismatch),
        }
    }

    /// Whether the store can take `nodes` more nodes and `links` more edges.
    fn has_room(&self, nodes: u64, links: u64) -> (r: bool)
        requires
            self@.wf(),
            nodes <= 2,
            links <= 0x4_0000_0000,
        ensures
            r == self@.room(nodes as nat, links as nat),
    {
        let held = store_node_count(&self.frame) as u64;
        let joined = store_edge_count(&self.frame) as u64;
        held + nodes <= 0xffff_ffff && joined + links <= 0xffff_ffff
    }

    /// See [`Model::enter_arm`].
    fn enter_arm(&mut self)
        ensures
            final(self)@ == old(self)@.enter_arm(),
    {
        if self.state.arm >= self.config.nb_arms {
            self.state = Registers { phase: Phase::Radius, ..self.state };
        } else {
            self.state = Registers {
                phase: if self.config.nb_arm_bones == 0 {
                    Phase::Turn
                } else {
                    Phase::Bone
                },
                bone: 0,
                tip: 0,
                position: self.state.center,
                angle: self.state.heading,
                divisor: Scalar::from_bits(0x3ff0_0000_0000_0000),
                ..self.state
            };
        }
    }

    /// See [`Model::after_bone`].
    fn after_bone(&mut self)
        requires
            old(self)@.state.bone < u64::MAX,
        ensures
            final(self)@ == old(self)@.after_bone(),
    {
        let bone = self.state.bone + 1;
        self.state = Registers {
            phase: if bone >= self.config.nb_arm_bones {
                Phase::Turn
            } else {
                Phase::Bone
            },
            bone,
            ..self.state
        };
    }

    /// See [`Model::enter_cloud`].
    fn enter_cloud(&mut self)
        ensures
            final(self)@ == old(self)@.enter_cloud(),
    {
        self.state = Registers {
            phase: if self.config.cloud_population == 0 {
                Phase::Done
            } else {
                Phase::Candidate
            },
            hosts: store_node_count(&self.frame),
            host: 0,
            draw: 0,
            ..self.state
        };
    }

    /// See [`Model::after_draw`].
    fn after_draw(&mut self)
        requires
            old(self)@.state.draw < u64::MAX,
            old(self)@.state.host < usize::MAX,
        ensures
            final(self)@ == old(self)@.after_draw(),
    {
        let draw = self.state.draw + 1;
        let host = self.state.host + 1;
        if draw < self.config.cloud_population {
            self.state = Registers { draw, ..self.state };
        } else {
            self.state = Registers {
                phase: if host >= self.state.hosts {
                    Phase::Done
                } else {
                    Phase::Candidate
                },
                host,
                draw: 0,
                ..self.state
            };
        }
    }

    /// Takes the reach and begins the first arm.
    fn set_reach(&mut self, reach: Scalar) -> (r: Result<(), Fault>)
        requires
            old(self)@.wf(),
        ensures
            final(self)@.wf(),
            match r {
                Ok(()) => old(self)@.fault(Reply::Reach(reach)).is_none() && final(self)@ == old(self)@.on_reach(reach),
                Err(fault) => old(self)@.fault(Reply::Reach(reach)) == Some(fault) && final(self)@
                    == old(self)@,
            },
    {
        if self.state.phase != Phase::Reach {
            return Err(Fault::Mismatch);
        }
        proof {
            lemma_on_reach_wf(self@, reach);
        }
        self.state = Registers { reach, arm: 0, heading: Scalar::from_bits(0), ..self.state };
        self.enter_arm();
        Ok(())
    }

    /// Grows the arm by one link.
    fn populate_arm(
        &mut self,
        position: Point,
        direction: Point,
        angle: Scalar,
        divisor: Scalar,
        distances: Vec<Scalar>,
    ) -> (r: Result<(), Fault>)
        requires
            old(self)@.wf(),
        ensures
            final(self)@.wf(),
            match r {
                Ok(()) => old(self)@.fault(Reply::Bone { position, direction, angle, divisor, distances })
                    .is_none() && final(self)@ == old(self)@.on_bone(
                    position,
                    direction,
                    angle,
                    divisor,
                    distances@,
                ),
                Err(fault) => old(self)@.fault(Reply::Bone { position, direction, angle, divisor, distances })
                    == Some(fault) && final(self)@ == old(self)@,
            },
    {
        if self.state.phase != Phase::Bone || distances.len() != store_node_count(&self.frame) {
            return Err(Fault::Mismatch);
        }
        if !self.has_room(1, count_near(&distances, self.state.reach) as u64 + 1) {
            return Err(Fault::Full);
        }
        proof {
            lemma_on_bone_wf(self@, position, direction, angle, divisor, distances@);
            lemma_overlaps_len(self@.count(), distances@, self.state.reach);
        }
        let first = self.state.bone == 0;
        let arm_id = add_node(&mut self.frame, position.with_data(NodeType::Arm), &distances, self.state.reach);
        store_add_edge(&mut self.frame, self.state.tip, arm_id, EdgeType::Frame);
        self.state = Registers { tip: arm_id, position, direction, angle, divisor, ..self.state };
        if first {
            self.after_bone();
        } else {
            self.state = Registers { phase: Phase::Span, ..self.state };
        }
        Ok(())
    }

    /// Begins the branch at the newest link.
    fn open_ext(&mut self, normale: Point, whole: u32) -> (r: Result<(), Fault>)
        requires
            old(self)@.wf(),
        ensures
            final(self)@.wf(),
            match r {
                Ok(()) => old(self)@.fault(Reply::Span { normale, whole }).is_none() && final(self)@
                    == old(self)@.on_span(normale, whole),
                Err(fault) => old(self)@.fault(Reply::Span { normale, whole }) == Some(fault) && final(self)@ == old(self)@,
            },
    {
        if self.state.phase != Phase::Span {
            return Err(Fault::Mismatch);
        }
        self.state = Registers {
            phase: Phase::Offset,
            normale,
            parts: whole as u64 + 1,
            step: 1,
            plus_end: self.state.tip,
            minus_end: self.state.tip,
            ..self.state
        };
        Ok(())
    }

    /// Grows the branch by one point on each side.
    fn populate_ext(
        &mut self,
        plus: Point,
        minus: Point,
        plus_distances: Vec<Scalar>,
        minus_distances: Vec<Scalar>,
    ) -> (r: Result<(), Fault>)
        requires
            old(self)@.wf(),
        ensures
            final(self)@.wf(),
            match r {
                Ok(()) => old(self)@.fault(Reply::Offset { plus, minus, plus_distances, minus_distances })
                    .is_none() && final(self)@ == old(self)@.on_offset(
                    plus,
                    minus,
                    plus_distances@,
                    minus_distances@,
                ),
                Err(fault) => old(self)@.fault(Reply::Offset { plus, minus, plus_distances, minus_distances })
                    == Some(fault) && final(self)@ == old(self)@,
            },
    {
        if self.state.phase != Phase::Offset {
            return Err(Fault::Mismatch);
        }
        let count = store_node_count(&self.frame);
        if plus_distances.len() != count || minus_distances.len() == 0 || minus_distances.len() - 1
            != count {
            return Err(Fault::Mismatch);
        }
        let near_plus = count_near(&plus_distances, self.state.reach) as u64;
        let near_minus = count_near(&minus_distances, self.state.reach) as u64;
        if !self.has_room(2, near_plus + near_minus + 2) {
            return Err(Fault::Full);
        }
        proof {
            lemma_on_offset_wf(self@, plus, minus, plus_distances@, minus_distances@);
            lemma_overlaps_len(self@.count(), plus_distances@, self.state.reach);
            lemma_overlaps_len((self@.count() + 1) as usize, minus_distances@, self.state.reach);
        }
        let ext1 = add_node(&mut self.frame, plus.with_data(NodeType::Ext), &plus_distances, self.state.reach);
        let ext2 = add_node(&mut self.frame, minus.with_data(NodeType::Ext), &minus_distances, self.state.reach);
        store_add_edge(&mut self.frame, self.state.plus_end, ext1, EdgeType::Frame);
        store_add_edge(&mut self.frame, self.state.minus_end, ext2, EdgeType::Frame);
        let step = self.state.step + 1;
        let last = step > self.state.parts;
        self.state = Registers { plus_end: ext1, minus_end: ext2, step, ..self.state };
        if last {
            self.after_bone();
        }
        Ok(())
    }

    /// Begins the next arm at the angle given.
    fn turn(&mut self, angle: Scalar) -> (r: Result<(), Fault>)
        requires
            old(self)@.wf(),
        ensures
            final(self)@.wf(),
            match r {
                Ok(()) => old(self)@.fault(Reply::Turn(angle)).is_none() && final(self)@ == old(self)@.on_turn(angle),
                Err(fault) => old(self)@.fault(Reply::Turn(angle)) == Some(fault) && final(self)@
                    == old(self)@,
            },
    {
        if self.state.phase != Phase::Turn {
            return Err(Fault::Mismatch);
        }
        proof {
            lemma_on_turn_wf(self@, angle);
        }
        self.state = Registers { heading: angle, arm: self.state.arm + 1, ..self.state };
        self.enter_arm();
        Ok(())
    }

    /// Keeps the largest of the distances from the root as the radius of the
    /// galaxy.
    fn set_radius(&mut self, distances: Vec<Scalar>) -> (r: Result<(), Fault>)
        requires
            old(self)@.wf(),
        ensures
            final(self)@.wf(),
            match r {
                Ok(()) => old(self)@.fault(Reply::Radius(distances)).is_none() && final(self)@ == old(self)@.on_radius(distances@),
                Err(fault) => old(self)@.fault(Reply::Radius(distances)) == Some(fault) && final(self)@
                    == old(self)@,
            },
    {
        if self.state.phase != Phase::Radius || distances.len() != store_node_count(&self.frame) {
            return Err(Fault::Mismatch);
        }
        proof {
            lemma_on_radius_wf(self@, distances@);
        }
        self.state = Registers { radius: largest(&distances), loner: 0, ..self.state };
        if self.config.nb_loners == 0 {
            self.enter_cloud();
        } else {
            self.state = Registers { phase: Phase::Loner, ..self.state };
        }
        Ok(())
    }

    /// Places an outlier.
    fn populate_loner(&mut self, point: Point, distances: Vec<Scalar>) -> (r: Result<(), Fault>)
        requires
            old(self)@.wf(),
            old(self)@.state.phase == Phase::Loner,
        ensures
            final(self)@.wf(),
            match r {
                Ok(()) => old(self)@.fault(Reply::Placed { point, distances }).is_none() && final(self)@
                    == old(self)@.on_loner(point, distances@),
                Err(fault) => old(self)@.fault(Reply::Placed { point, distances }) == Some(fault)
                    && final(self)@ == old(self)@,
            },
    {
        if distances.len() != store_node_count(&self.frame) {
            return Err(Fault::Mismatch);
        }
        if !self.has_room(1, count_near(&distances, self.state.reach) as u64) {
            return Err(Fault::Full);
        }
        proof {
            lemma_on_loner_wf(self@, point, distances@);
            lemma_overlaps_len(self@.count(), distances@, self.state.reach);
        }
        add_node(&mut self.frame, point.with_data(NodeType::Loner), &distances, self.state.reach);
        let loner = self.state.loner + 1;
        self.state = Registers { loner, ..self.state };
        if loner >= self.config.nb_loners {
            self.enter_cloud();
        }
        Ok(())
    }

    /// Deals with one cloud candidate: it becomes a `System` node unless a
    /// least distance is set and the candidate is crowded.
    fn populate_cloud(&mut self, point: Point, distances: Vec<Scalar>) -> (r: Result<(), Fault>)
        requires
            old(self)@.wf(),
            old(self)@.state.phase == Phase::Candidate,
        ensures
            final(self)@.wf(),
            match r {
                Ok(()) => old(self)@.fault(Reply::Placed { point, distances }).is_none() && final(self)@
                    == old(self)@.on_candidate(point, distances@),
                Err(fault) => old(self)@.fault(Reply::Placed { point, distances }) == Some(fault)
                    && final(self)@ == old(self)@,
            },
    {
        if distances.len() != store_node_count(&self.frame) {
            return Err(Fault::Mismatch);
        }
        let kept = match self.config.min_distance {
            Some(least) => !is_crowded(&self.frame, self.state.host, &distances, least),
            None => true,
        };
        if kept && !self.has_room(1, count_near(&distances, self.state.reach) as u64 + 1) {
            return Err(Fault::Full);
        }
        proof {
            lemma_on_candidate_wf(self@, point, distances@);
            lemma_overlaps_len(self@.count(), distances@, self.state.reach);
        }
        if kept {
            let sys_id = add_node(&mut self.frame, point.with_data(NodeType::System), &distances, self.state.reach);
            store_add_edge(&mut self.frame, self.state.host, sys_id, EdgeType::Frame);
        }
        self.after_draw();
        Ok(())
    }
}

} // verus!
