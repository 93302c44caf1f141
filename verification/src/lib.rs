//! fem203 is intended to be an FEM system for computation based on the theory
//! of Absolute Relativity.
//!
//! This crate holds the verified core: the coordinate tuples that describe
//! grid positions and axis lengths, the enumerated simulation parameters
//! (medium, boundary condition), and the time-step index sequence that a
//! simulation run samples its sources over. The floating-point numerics
//! built on top of these types live outside the verified core.

pub mod parameters;
pub mod timing;
pub mod utils;
