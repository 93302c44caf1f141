//! Data types for specifying simulation parameters.

use vstd::prelude::*;

verus! {

/// Markers for setting boundary conditions for the simulation.
///
/// A label only: no code path consults the boundary condition yet.
#[derive(Debug)]
pub enum BoundaryCondition {
    /// Fix boundaries at 0.
    Drichlet,
    /// Take boundary values from the opposite end of the simulation.
    Periodic,
    /// Perfectly reflect at the boundary.
    Perfect,
}

/// Used to define the permeability and permittivity of the simulation.
///
/// Each variant maps to a fixed (relative permittivity, relative
/// permeability) pair in the medium resolver.
#[derive(Debug)]
pub enum Medium {
    /// Resolves to a (0, 0) pair.
    Air,
    /// Resolves to the vacuum permittivity and permeability.
    FreeSpace,
}

} // verus!
