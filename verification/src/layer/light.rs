//! Kinds of lights.
use vstd::prelude::*;

verus! {

/// The shape of a light.
#[derive(Debug, PartialEq, Eq, Structural, Clone, Copy)]
pub enum LightShape {
    /// No shape.
    NoShape,
    /// Light over the whole world.
    World,
    /// A point.
    Point,
    /// A spot.
    Spot,
    /// A flat light.
    Flat,
    /// A line.
    Line,
    /// Specular light.
    Specular,
}

/// How a point light spreads.
#[derive(Debug, PartialEq, Eq, Structural, Clone, Copy)]
pub enum PointLightType {
    /// In every direction.
    Sphere,
    /// In one half.
    Hemisphere,
}

} // verus!
