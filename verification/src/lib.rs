//! Spiral galaxies as annotated graphs.
//!
//! A galaxy is a root, arms that leave it, lateral branches along the arms,
//! outliers, and a cloud of points around each of these. This crate decides
//! the shape of a galaxy: which nodes exist and of what kind, which edges
//! join them, and which cloud candidates are kept. It does no arithmetic on
//! coordinates. Every coordinate, angle and distance is a [`Scalar`], the bit
//! pattern of a binary64 number, and the crate compares, negates and stores
//! such values and nothing else. What has to be calculated is asked of the
//! caller in a [`Request`] and comes back in a [`Reply`].
//!
//! [`GalaxyBuilder`] holds the options, and [`GalaxyBuilder::build`] begins a
//! [`Generation`]. A generation says what it is waiting for
//! ([`Generation::request`]) and moves on with the result
//! ([`Generation::advance`]) until nothing is left to ask;
//! [`Generation::run`] does both in a loop around a function of the caller.
//! The [`Galaxy`] that comes out ([`Generation::finish`]) keeps the nodes and
//! the structural edges.
//!
//! The modules:
//!
//! - [`scalar`], [`point`], [`frame`]: numbers, positions, and the kinds of
//!   nodes and edges;
//! - [`builder`]: the options;
//! - [`protocol`]: requests, replies and the variables of a generation;
//! - [`model`]: the generation as a state and a transition function, and what
//!   holds of every state;
//! - [`generation`], [`galaxy`]: the code, proved to do what the model says;
//! - [`store`]: the `petgraph` graph that holds nodes and edges, with what is
//!   taken on trust about it;
//! - [`laws`]: what follows for every galaxy, whatever the replies were;
//! - [`steps`], [`lemmas`]: the proofs underneath.

pub mod builder;
pub mod frame;
pub mod galaxy;
pub mod generation;
pub mod laws;
pub mod lemmas;
pub mod model;
pub mod point;
pub mod protocol;
pub mod scalar;
pub mod steps;
pub mod store;

pub use builder::GalaxyBuilder;
pub use frame::{EdgeType, Link, NodeType};
pub use galaxy::{Chart, Galaxy, GalaxyPoints};
pub use generation::Generation;
pub use point::{DataPoint, Point};
pub use protocol::{Fault, Phase, Registers, Reply, Request};
pub use scalar::Scalar;
