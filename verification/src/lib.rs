//! A feasibility path planner for a 2-D workspace with circular obstacles.
//!
//! The workspace is modelled on an integer grid. A solver worker grows a
//! random tree from a start point until it reaches a circular finish
//! region, streaming results back to a controller over a small command /
//! event protocol with an acknowledgment-paced debug mode.

pub mod field;
pub mod geom;
pub mod proto;
pub mod rng;
pub mod solver;
pub mod tree;
pub mod ui;
pub mod worker;
