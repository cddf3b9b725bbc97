//! The states a shared group starts in.
use vstd::prelude::*;

verus! {

/// How a door starts.
#[derive(Debug, PartialEq, Eq, Structural, Clone, Copy)]
pub enum DoorState {
    /// Opens by itself.
    Auto,
    /// Open.
    Open,
    /// Closed.
    Closed,
}

/// How a rotation starts.
#[derive(Debug, PartialEq, Eq, Structural, Clone, Copy)]
pub enum RotationState {
    /// Turning.
    Rounding,
    /// Still.
    Stopped,
}

/// How a transformation starts.
#[derive(Debug, PartialEq, Eq, Structural, Clone, Copy)]
pub enum TransformState {
    /// Playing.
    Play,
    /// Stopped.
    Stop,
    /// Played again.
    Replay,
    /// Reset.
    Reset,
}

/// How a color animation starts.
#[derive(Debug, PartialEq, Eq, Structural, Clone, Copy)]
pub enum ColourState {
    /// Playing.
    Play,
    /// Stopped.
    Stop,
    /// Played again.
    Replay,
    /// Reset.
    Reset,
}

/// What moves along a path.
#[derive(Debug, PartialEq, Eq, Structural, Clone, Copy)]
pub enum MovePathMode {
    /// Nothing.
    NoMove,
    /// A shared group action.
    SharedGroupAction,
    /// A timeline.
    Timeline,
}

/// How something moving along a path turns.
#[derive(Debug, PartialEq, Eq, Structural, Clone, Copy)]
pub enum RotationType {
    /// It does not turn.
    NoRotate,
    /// Around every axis.
    AllAxis,
    /// Around the Y axis only.
    YAxisOnly,
}

} // verus!
