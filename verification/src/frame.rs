//! The classifications that nodes and edges carry.

use vstd::prelude::*;

verus! {

/// What a node of the galaxy is.
#[derive(Clone, Copy, Debug, PartialEq, Eq, Structural)]
pub enum NodeType {
    /// The centre; every galaxy has exactly one.
    Root,
    /// A link of an arm's chain.
    Arm,
    /// A point of a lateral branch of an arm.
    Ext,
    /// An outlier, joined to nothing.
    Loner,
    /// A cloud point grown around another node.
    System,
}

/// What an edge records while a galaxy is generated.
#[derive(Clone, Copy, Debug, PartialEq, Eq, Structural)]
pub enum EdgeType {
    /// From a node to a node grown out of it.
    Frame,
    /// From a node to an older node that lay within reach when it was placed.
    Overlapping,
}

/// A labelled edge between two node identifiers.
#[derive(Clone, Copy, Debug, PartialEq, Eq, Structural)]
pub struct Link {
    pub from: usize,
    pub to: usize,
    pub kind: EdgeType,
}

} // verus!
