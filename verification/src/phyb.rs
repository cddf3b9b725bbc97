//! Physics files (PHYB): the parts that hold no coordinates.
use vstd::prelude::*;

verus! {

/// The header of a physics file.
#[derive(Debug, Clone, Copy, PartialEq, Eq, Structural)]
pub struct PhybHeader {
    version: i32,
    data_type: u32,
    collision_offset: u32,
    simulator_offset: u32,
}

/// The flags of a simulator.
#[derive(Debug, Clone, Copy, PartialEq, Eq, Structural)]
pub struct SimulatorFlags(pub u8);

/// Which side of a collision shape collides.
#[derive(Clone, Copy, Debug, PartialEq, Eq, Structural)]
pub enum CollisionType {
    /// Both sides.
    Both,
    /// The outside.
    Outside,
    /// The inside.
    Inside,
}

/// A collision shape named by a chain.
#[derive(Debug, Clone, PartialEq)]
pub struct PhybCollisionData {
    /// The name of the shape.
    pub name: String,
    /// Which side collides.
    pub collision_type: CollisionType,
}

/// The shape of the links of a chain.
#[derive(Clone, Copy, Debug, PartialEq, Eq, Structural)]
pub enum ChainType {
    /// Spheres.
    Sphere,
    /// Capsules.
    Capsule,
}

/// Keeps a node of a chain aligned to a collision shape.
#[derive(Debug, Clone, PartialEq)]
pub struct PhybPostAlignment {
    /// The name of the collision shape.
    pub collision_name: String,
    /// The chain.
    pub chain_id: u16,
    /// The node.
    pub node_id: u16,
}

} // verus!
