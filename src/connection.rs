//! Directions along which two nodes can be connected.
use vstd::prelude::*;

verus! {

/// Where a connection points, seen from the node it starts at.
#[derive(Debug, Clone, Copy, PartialEq, Eq, Structural)]
pub enum Direction {
    North,
    NorthEast,
    East,
    SouthEast,
    South,
    SouthWest,
    West,
    NorthWest,
    Up,
    Down,
    /// Along the progression of time.
    Forward,
    /// Against the progression of time.
    Backward,
    /// Towards the centre of attraction.
    Inward,
    /// Away from the centre of attraction.
    Outward,
    /// The node's own centre.
    Center,
}

} // verus!
