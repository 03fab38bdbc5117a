//! The failures that the planet reports to its caller.

use vstd::prelude::*;

verus! {

/// Why a request to the planet was turned down. None of these is fatal.
#[derive(Clone, Copy, Debug, PartialEq, Eq, Structural)]
pub enum PlanetError {
    /// Producing would leave fewer charged cells than the reserve.
    InsufficientCharge,
    /// No rocket can be built: no cell is charged, or a rocket is already there.
    NoChargedCell,
    /// A sunray finds no empty cell to charge.
    AllCellsFull,
    /// The planet does not produce the requested resource.
    UnsupportedResource,
    /// More cells are charged than the configured capacity allows.
    InvalidState,
}

} // verus!
