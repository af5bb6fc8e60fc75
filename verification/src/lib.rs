//! Hexagonal grids: four interconvertible coordinate systems and a container
//! that stores one value per hex while keeping every pair of occupied
//! neighbors linked.

pub mod coordinate;
mod graph;
pub mod hexgrid;
pub mod prelude;
