//! Visual effects placed in a layer.
use vstd::prelude::*;
use crate::layer::HeapString;

verus! {

/// The style of the dotted lines used for zone transitions and boundaries.
#[derive(Debug, PartialEq, Eq, Structural, Clone, Copy)]
pub enum LineStyle {
    /// Red.
    Red,
    /// Blue.
    Blue,
    /// Red, seen from afar.
    RedFar,
}

/// The dotted lines used for zone transitions and boundaries.
#[derive(Debug, PartialEq, Eq, Structural, Clone, Copy)]
pub struct LineVFXInstanceObject {
    /// The style of the line.
    pub line_style: LineStyle,
}

/// A 2D decal drawn on top of a 3D object.
#[derive(Debug, PartialEq, Clone)]
pub struct DecalInstanceObject {
    /// Path to a `.tex` file.
    pub asset_path: HeapString,
}

} // verus!
