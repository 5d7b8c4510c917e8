//! What a generation asks of its caller, and what it takes back.

use vstd::prelude::*;
use crate::point::Point;
use crate::scalar::Scalar;

verus! {

/// A calculation that a generation is waiting for. The formulas are the
/// caller's to evaluate; each variant says which one and on what.
#[derive(Clone, Copy, Debug, PartialEq, Eq, Structural)]
pub enum Request {
    /// Twice the cloud radius: the distance within which two nodes overlap.
    Reach,
    /// The next link of an arm: a step of one cloud radius from `from` at
    /// `angle`, the unit vector of that step, and the angle and divisor of the
    /// link after it (`angle` plus the arm slope over `divisor`, and `divisor`
    /// plus the slope factor).
    Bone { from: Point, angle: Scalar, divisor: Scalar },
    /// The lateral branch at link number `iteration`: `normal`, the normal of
    /// the link's direction, scaled by `iteration`, by twice the cloud radius
    /// and by the arm width factor, and how many whole times twice the cloud
    /// radius goes into its length.
    Span { normal: Point, iteration: u64 },
    /// The two branch points number `step`: `origin` plus and minus `step`
    /// times the `parts`-th part of `normale`.
    Offset { origin: Point, normale: Point, parts: u64, step: u64 },
    /// The angle at which the next arm leaves: `angle` plus a full turn over
    /// the number of arms.
    Turn { angle: Scalar },
    /// The distance from `center` to every node.
    Radius { center: Point },
    /// An outlier: a point at a random angle and at a random distance below
    /// `radius` from `center`.
    Loner { center: Point, radius: Scalar },
    /// A cloud candidate: a point at a random angle and at a random distance
    /// from `around`, between the least distance (or zero) and the cloud
    /// radius.
    Candidate { around: Point },
    /// Nothing: the galaxy is complete.
    Done,
}

/// The result of a calculation. Wherever a new point comes back, the
/// distances from it to every node already placed come with it, by node
/// identifier.
#[derive(Debug)]
pub enum Reply {
    /// To [`Request::Reach`].
    Reach(Scalar),
    /// To [`Request::Bone`].
    Bone { position: Point, direction: Point, angle: Scalar, divisor: Scalar, distances: Vec<Scalar> },
    /// To [`Request::Span`].
    Span { normale: Point, whole: u32 },
    /// To [`Request::Offset`]. `minus_distances` has one entry more than
    /// `plus_distances`: the last is the distance between the two points.
    Offset { plus: Point, minus: Point, plus_distances: Vec<Scalar>, minus_distances: Vec<Scalar> },
    /// To [`Request::Turn`].
    Turn(Scalar),
    /// To [`Request::Radius`].
    Radius(Vec<Scalar>),
    /// To [`Request::Loner`] and to [`Request::Candidate`].
    Placed { point: Point, distances: Vec<Scalar> },
}

/// Why a reply was refused. A refused reply changes nothing.
#[derive(Clone, Copy, Debug, PartialEq, Eq, Structural)]
pub enum Fault {
    /// The reply does not answer the pending request, or a list of distances
    /// has the wrong length.
    Mismatch,
    /// The store has no room left for the nodes and edges that the reply
    /// would add.
    Full,
}

/// Where a generation stands.
#[derive(Clone, Copy, Debug, PartialEq, Eq, Structural)]
pub enum Phase {
    Reach,
    Bone,
    Span,
    Offset,
    Turn,
    Radius,
    Loner,
    Candidate,
    Done,
}

/// The variables of a generation, next to its graph.
#[derive(Clone, Copy, Debug)]
pub struct Registers {
    pub phase: Phase,
    /// The position of the root.
    pub center: Point,
    /// The distance within which two nodes overlap.
    pub reach: Scalar,
    /// The number of the arm being grown.
    pub arm: u64,
    /// The number of the link being grown.
    pub bone: u64,
    /// The angle at which the arm being grown left the root.
    pub heading: Scalar,
    /// The angle of the next link.
    pub angle: Scalar,
    /// The divisor of the next link.
    pub divisor: Scalar,
    /// The node at the end of the arm so far.
    pub tip: usize,
    /// The position of that node.
    pub position: Point,
    /// The unit vector of the last link.
    pub direction: Point,
    /// The span of the branch being grown.
    pub normale: Point,
    /// The number of points on each side of the branch.
    pub parts: u64,
    /// The number of the next pair of branch points, counted from one.
    pub step: u64,
    /// The node at the end of the branch's side along the span.
    pub plus_end: usize,
    /// The node at the end of the branch's other side.
    pub minus_end: usize,
    /// The largest distance from the root to a node of the skeleton.
    pub radius: Scalar,
    /// How many outliers are placed.
    pub loner: u64,
    /// How many nodes get a cloud: those placed before the first candidate.
    pub hosts: usize,
    /// The node whose cloud is being grown.
    pub host: usize,
    /// How many candidates were drawn around it.
    pub draw: u64,
}

} // verus!
