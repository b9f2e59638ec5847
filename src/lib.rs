//! Verified core of the helix visualisation: the polarity rule of the
//! magnetic field interaction, the lattice and index layout of tessellated
//! spheres, the shape dispatch of mesh requests, and the error bookkeeping
//! shared by the engine-facing systems.
pub mod config;
pub mod connection;
pub mod err;
pub mod field;
pub mod shapes;
pub mod sphere;
