//! Kinds of collision and shadows of background models.
use vstd::prelude::*;

verus! {

/// How a background model collides.
#[derive(Debug, PartialEq, Eq, Structural, Clone, Copy)]
pub enum ModelCollisionType {
    /// No collision.
    NoCollision,
    /// The model is replaced by its collision model.
    Replace,
    /// A box.
    Box,
}

/// Whether a model casts shadows.
#[derive(Debug, PartialEq, Eq, Structural, Clone, Copy)]
pub enum ShadowMode {
    /// Never.
    ForceOff,
    /// Always.
    ForceOn,
    /// As the surrounding settings say.
    Inherit,
}

/// The shape of an analytic collider.
#[derive(Debug, PartialEq, Eq, Structural, Clone, Copy)]
pub enum AnalyticColliderType {
    /// No shape.
    NoShape,
    /// A box.
    Box,
    /// A sphere.
    Sphere,
    /// A cylinder.
    Cylinder,
    /// A plane.
    Plane,
}

} // verus!
