//! One read of the record that the game client publishes.

use vstd::prelude::*;
use crate::context::CONTEXT_LEN;

verus! {

/// A position in the game's left-handed coordinate system. Each component
/// holds the IEEE 754 bit pattern of a single-precision number, in the order
/// x, y, z.
#[derive(Clone, Copy, Debug)]
pub struct Position {
    /// Where the viewer stands.
    pub position: [u32; 3],
    /// Unit vector pointing out of the viewer's eyes.
    pub front: [u32; 3],
    /// Unit vector pointing out of the top of the viewer's head.
    pub top: [u32; 3],
}

/// The part of a published record that a log row is made from.
#[derive(Clone, Copy, Debug)]
pub struct Snapshot {
    /// The camera's position and orientation.
    pub camera: Position,
    /// The context region, which the game fills with its own blob.
    pub context: [u8; CONTEXT_LEN],
}

} // verus!
