//! Environment sets placed in a layer.
use vstd::prelude::*;

verus! {

/// The shape of an environment set.
#[derive(Debug, PartialEq, Eq, Structural, Clone, Copy)]
pub enum EnvSetShape {
    /// An ellipsoid.
    Ellipsoid,
    /// A cuboid.
    Cuboid,
    /// A cylinder.
    Cylinder,
}

} // verus!
