use vstd::prelude::*;

verus! {

/// The geometric family an entity is drawn as.
#[derive(Debug, Clone, Copy, PartialEq, Eq, Structural)]
pub enum GOType {
    Point,
    Line,
    Spline,
    Arc,
    Circle,
}

/// Whether an entity is part of the finished drawing or only supports a construction.
#[derive(Debug, Clone, Copy, PartialEq, Eq, Structural)]
pub enum DrawMode {
    /// Construction aid, hidden from the finished drawing.
    Calculation,
    /// Part of the finished drawing.
    Modeling,
}

} // verus!
